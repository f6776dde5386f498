//! The convergence-wait protocol: sequence rendezvous, cancellation and
//! failure propagation.

use hashd_params::wait::{
    progress_line, rendezvous_reached, run_wait, wait_step, ConvergenceSnapshot, PollTick,
    WaitDecision, WaitOutcome,
};

fn snapshot(cmd_seq: u64, bench_seq: u64) -> ConvergenceSnapshot {
    ConvergenceSnapshot {
        cmd_seq,
        bench_seq,
        phase: "init".to_string(),
        mem_probe_size: 1048576,
        io_rbps: None,
        io_wbps: None,
        lat_p50: None,
        lat_p90: None,
        lat_p99: None,
        failure: None,
    }
}

fn tick(cmd_seq: u64, bench_seq: u64) -> PollTick {
    PollTick { cancelled: false, snapshot: snapshot(cmd_seq, bench_seq) }
}

#[test]
fn rendezvous_requires_reaching_the_requested_sequence() {
    assert!(!rendezvous_reached(&snapshot(2, 1)));
    assert!(rendezvous_reached(&snapshot(2, 2)));
    assert!(rendezvous_reached(&snapshot(2, 3)));
}

#[test]
fn wait_terminates_on_the_nth_poll_exactly() {
    // The benchmark sequence reaches the target only on the fifth poll.
    let ticks = vec![tick(2, 1), tick(2, 1), tick(2, 1), tick(2, 1), tick(2, 2), tick(2, 2)];
    let (outcome, lines) = run_wait(&ticks);
    assert_eq!(outcome, WaitOutcome::Converged { polls: 5 });
    assert_eq!(lines.len(), 5);
}

#[test]
fn wait_does_not_terminate_before_the_rendezvous() {
    let ticks = vec![tick(2, 1), tick(2, 1), tick(2, 1)];
    let (outcome, lines) = run_wait(&ticks);
    assert_eq!(outcome, WaitOutcome::Exhausted);
    assert_eq!(lines.len(), 3);
}

#[test]
fn stale_completion_of_an_earlier_run_is_not_convergence() {
    // A prior run completed sequence 1, but sequence 2 was requested.
    let step = wait_step(&snapshot(2, 1));
    assert_eq!(step.1, WaitDecision::Continue);
    let done = wait_step(&snapshot(2, 2));
    assert_eq!(done.1, WaitDecision::Done);
}

#[test]
fn cancellation_is_observed_between_polls() {
    let mut ticks = vec![tick(2, 1), tick(2, 1)];
    ticks.push(PollTick { cancelled: true, snapshot: snapshot(2, 2) });
    ticks.push(tick(2, 2));
    let (outcome, lines) = run_wait(&ticks);
    // The run ends at the cancelled tick; its snapshot is never read and no
    // converged result is ever produced.
    assert_eq!(outcome, WaitOutcome::Cancelled { polls: 2 });
    assert_eq!(lines.len(), 2);
}

#[test]
fn external_failure_surfaces_verbatim() {
    let mut failed = snapshot(2, 1);
    failed.failure = Some("agent went away".to_string());
    let ticks = vec![tick(2, 1), PollTick { cancelled: false, snapshot: failed }];
    let (outcome, lines) = run_wait(&ticks);
    assert_eq!(
        outcome,
        WaitOutcome::Failed { cause: "agent went away".to_string(), polls: 2 }
    );
    assert_eq!(lines.len(), 2);
}

#[test]
fn failure_wins_over_a_simultaneous_rendezvous() {
    let mut s = snapshot(2, 2);
    s.failure = Some("late failure".to_string());
    let step = wait_step(&s);
    assert_eq!(step.1, WaitDecision::Failed("late failure".to_string()));
}

#[test]
fn progress_line_shows_phase_size_and_placeholders() {
    let line = progress_line(&snapshot(2, 1));
    assert_eq!(line, "[init] mem:  1.0M rw:    -/    - p50/90/99:     -/    -/    -");
}

#[test]
fn progress_line_shows_available_readings() {
    let mut s = snapshot(2, 1);
    s.phase = "bench".to_string();
    s.mem_probe_size = 17179869184;
    s.io_rbps = Some(1536);
    s.io_wbps = Some(1048576);
    s.lat_p50 = Some(500);
    s.lat_p90 = Some(1500);
    s.lat_p99 = Some(2500000);
    let line = progress_line(&s);
    assert_eq!(line, "[bench] mem: 16.0G rw: 1.5K/ 1.0M p50/90/99:  500u/ 1.5m/ 2.5s");
}
