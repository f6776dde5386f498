//! The convergence-wait protocol.
//!
//! The delegated path hands calibration to an external long-running
//! operation, then repeatedly observes its state.  Each observation is a
//! [`ConvergenceSnapshot`]; termination is a monotonic sequence-number
//! rendezvous: the benchmark's completed-sequence counter must reach the
//! command's requested-sequence counter, which guards against mistaking a
//! stale completion of an earlier run for the one requested.  Every
//! observation also yields a progress line; unavailable readings render as a
//! dash, never as an error.  The loop must observe cancellation between
//! polls, and an externally signalled failure ends the wait at once.

use vstd::prelude::*;
use crate::units::{dur_str_dashed, format_duration_dashed, format_size, format_size_dashed,
    pad_left, pad_left_spaces, size_str, size_str_dashed};

verus! {

/// One observation of the external system's live state.
#[derive(Debug, Clone, PartialEq, Eq)]
pub struct ConvergenceSnapshot {
    /// The command sequence number the external operation was asked to reach.
    pub cmd_seq: u64,
    /// The benchmark sequence number the external system has completed.
    pub bench_seq: u64,
    /// The current workload phase name.
    pub phase: String,
    /// The memory size being probed, in bytes.
    pub mem_probe_size: u64,
    /// Live read throughput in bytes per second, where available.
    pub io_rbps: Option<u64>,
    /// Live write throughput in bytes per second, where available.
    pub io_wbps: Option<u64>,
    /// Read latency 50th percentile in microseconds, where available.
    pub lat_p50: Option<u64>,
    /// Read latency 90th percentile in microseconds, where available.
    pub lat_p90: Option<u64>,
    /// Read latency 99th percentile in microseconds, where available.
    pub lat_p99: Option<u64>,
    /// A failure the external system signalled, ending the wait.
    pub failure: Option<String>,
}

/// What one observation tells the wait loop to do.
#[derive(Debug, Clone, PartialEq, Eq)]
pub enum WaitDecision {
    /// The operation has not converged; keep polling.
    Continue,
    /// The sequence rendezvous holds; the result may now be read.
    Done,
    /// The external system signalled failure; surface it verbatim.
    Failed(String),
}

/// The termination condition: the completed-sequence counter has reached the
/// requested-sequence counter.
pub open spec fn rendezvous(s: ConvergenceSnapshot) -> bool {
    s.bench_seq >= s.cmd_seq
}

/// Whether the rendezvous holds for `s`.
pub fn rendezvous_reached(s: &ConvergenceSnapshot) -> (r: bool)
    ensures
        r == rendezvous(*s),
{
    s.bench_seq >= s.cmd_seq
}

/// The decision one observation dictates: an external failure ends the wait,
/// the rendezvous ends it successfully, anything else continues.
pub open spec fn step_spec(s: ConvergenceSnapshot) -> WaitDecision {
    match s.failure {
        Some(cause) => WaitDecision::Failed(cause),
        None => if rendezvous(s) {
            WaitDecision::Done
        } else {
            WaitDecision::Continue
        },
    }
}

/// The progress line for one observation: phase, probed memory size, live
/// read/write throughput and read latency percentiles, each right-aligned to
/// five columns, dashes standing in for unavailable readings.
pub open spec fn progress_line_spec(s: ConvergenceSnapshot) -> Seq<char> {
    "["@ + s.phase@ + "] mem: "@ + pad_left(size_str(s.mem_probe_size as nat), 5, ' ') + " rw:"@
        + pad_left(size_str_dashed(s.io_rbps), 5, ' ') + "/"@ + pad_left(
        size_str_dashed(s.io_wbps),
        5,
        ' ',
    ) + " p50/90/99: "@ + pad_left(dur_str_dashed(s.lat_p50), 5, ' ') + "/"@ + pad_left(
        dur_str_dashed(s.lat_p90),
        5,
        ' ',
    ) + "/"@ + pad_left(dur_str_dashed(s.lat_p99), 5, ' ')
}

/// Renders the progress line for `s`, exactly [`progress_line_spec`].
pub fn progress_line(s: &ConvergenceSnapshot) -> (r: String)
    ensures
        r@ == progress_line_spec(*s),
{
    let mut out = String::from_str("[");
    out.append(s.phase.as_str());
    out.append("] mem: ");
    out.append(pad_left_spaces(format_size(s.mem_probe_size), 5).as_str());
    out.append(" rw:");
    out.append(pad_left_spaces(format_size_dashed(s.io_rbps), 5).as_str());
    out.append("/");
    out.append(pad_left_spaces(format_size_dashed(s.io_wbps), 5).as_str());
    out.append(" p50/90/99: ");
    out.append(pad_left_spaces(format_duration_dashed(s.lat_p50), 5).as_str());
    out.append("/");
    out.append(pad_left_spaces(format_duration_dashed(s.lat_p90), 5).as_str());
    out.append("/");
    out.append(pad_left_spaces(format_duration_dashed(s.lat_p99), 5).as_str());
    proof {
        assert(out@ =~= progress_line_spec(*s));
    }
    out
}

/// Reads one observation: its progress line, and the decision it dictates.
pub fn wait_step(s: &ConvergenceSnapshot) -> (r: (String, WaitDecision))
    ensures
        r.0@ == progress_line_spec(*s),
        r.1 == step_spec(*s),
{
    let line = progress_line(s);
    let decision = match &s.failure {
        Some(cause) => WaitDecision::Failed(cause.clone()),
        None => {
            if rendezvous_reached(s) {
                WaitDecision::Done
            } else {
                WaitDecision::Continue
            }
        },
    };
    (line, decision)
}

/// One poll tick as the surrounding loop observes it: whether cancellation
/// was signalled before the poll, and the snapshot the poll read.
#[derive(Debug, Clone, PartialEq, Eq)]
pub struct PollTick {
    /// Cancellation was signalled between the previous poll and this one.
    pub cancelled: bool,
    /// The state the poll observed.
    pub snapshot: ConvergenceSnapshot,
}

/// How a run of the wait loop ended.
#[derive(Debug, Clone, PartialEq, Eq)]
pub enum WaitOutcome {
    /// The rendezvous held on the `polls`-th observation.
    Converged { polls: usize },
    /// The external system signalled failure on the `polls`-th observation.
    Failed { cause: String, polls: usize },
    /// Cancellation was observed after `polls` observations; no result may be
    /// read.
    Cancelled { polls: usize },
    /// Every tick was observed and none ended the wait.
    Exhausted,
}

/// Drives the wait loop over a sequence of poll ticks: observations are
/// consumed in order, a progress line is rendered for each snapshot read, and
/// the loop ends at the first tick that is cancelled, failed or converged —
/// never before, never after.  A cancelled tick ends the run before its
/// snapshot is read.
pub fn run_wait(ticks: &Vec<PollTick>) -> (r: (WaitOutcome, Vec<String>))
    ensures
        match r.0 {
            WaitOutcome::Converged { polls } => {
                &&& 1 <= polls <= ticks@.len()
                &&& !ticks@[polls - 1].cancelled
                &&& step_spec(ticks@[polls - 1].snapshot) == WaitDecision::Done
                &&& forall|j: int|
                    0 <= j < polls - 1 ==> !(#[trigger] ticks@[j]).cancelled && step_spec(
                        ticks@[j].snapshot,
                    ) == WaitDecision::Continue
                &&& r.1@.len() == polls
            },
            WaitOutcome::Failed { cause, polls } => {
                &&& 1 <= polls <= ticks@.len()
                &&& !ticks@[polls - 1].cancelled
                &&& step_spec(ticks@[polls - 1].snapshot) == WaitDecision::Failed(cause)
                &&& forall|j: int|
                    0 <= j < polls - 1 ==> !(#[trigger] ticks@[j]).cancelled && step_spec(
                        ticks@[j].snapshot,
                    ) == WaitDecision::Continue
                &&& r.1@.len() == polls
            },
            WaitOutcome::Cancelled { polls } => {
                &&& 0 <= polls < ticks@.len()
                &&& ticks@[polls as int].cancelled
                &&& forall|j: int|
                    0 <= j < polls ==> !(#[trigger] ticks@[j]).cancelled && step_spec(
                        ticks@[j].snapshot,
                    ) == WaitDecision::Continue
                &&& r.1@.len() == polls
            },
            WaitOutcome::Exhausted => {
                &&& forall|j: int|
                    0 <= j < ticks@.len() ==> !(#[trigger] ticks@[j]).cancelled && step_spec(
                        ticks@[j].snapshot,
                    ) == WaitDecision::Continue
                &&& r.1@.len() == ticks@.len()
            },
        },
        forall|j: int|
            0 <= j < r.1@.len() ==> (#[trigger] r.1@[j])@ == progress_line_spec(
                ticks@[j].snapshot,
            ),
{
    let mut lines: Vec<String> = Vec::new();
    let n = ticks.len();
    let mut i: usize = 0;
    while i < n
        invariant
            n == ticks@.len(),
            i <= n,
            lines@.len() == i,
            forall|j: int|
                0 <= j < i ==> !(#[trigger] ticks@[j]).cancelled && step_spec(ticks@[j].snapshot)
                    == WaitDecision::Continue,
            forall|j: int|
                0 <= j < i ==> (#[trigger] lines@[j])@ == progress_line_spec(ticks@[j].snapshot),
        decreases n - i,
    {
        let t = &ticks[i];
        if t.cancelled {
            return (WaitOutcome::Cancelled { polls: i }, lines);
        }
        let step = wait_step(&t.snapshot);
        lines.push(step.0);
        match step.1 {
            WaitDecision::Continue => {},
            WaitDecision::Done => {
                return (WaitOutcome::Converged { polls: i + 1 }, lines);
            },
            WaitDecision::Failed(cause) => {
                return (WaitOutcome::Failed { cause, polls: i + 1 }, lines);
            },
        }
        i = i + 1;
    }
    (WaitOutcome::Exhausted, lines)
}

} // verus!
