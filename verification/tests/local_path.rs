//! The local approximation path.

use hashd_params::config::{CmdDefaults, HashdParamsBench};
use hashd_params::job::{plan_run, RunPlan};
use hashd_params::local::{approximate, DefaultProfile, FAKE_CPU_RPS_MAX};

fn profile() -> DefaultProfile {
    DefaultProfile {
        memory_size: 4 * (16u64 << 30),
        mean_file_size: 1258291,
        chunk_pages: 25,
        memory_fraction_milli: 250,
    }
}

fn dfl() -> CmdDefaults {
    CmdDefaults { balloon_size: 1 << 28, log_rate: 1100794 }
}

fn props(entries: &[(&str, &str)]) -> Vec<(String, String)> {
    entries.iter().map(|(k, v)| (k.to_string(), v.to_string())).collect()
}

#[test]
fn approximation_is_deterministic() {
    let c = HashdParamsBench {}
        .parse(&props(&[("hash-size", "999"), ("fake-cpu-load", "")]), &dfl())
        .unwrap();
    let p = profile();
    let r1 = approximate(&c, &p);
    let r2 = approximate(&c, &p);
    assert_eq!(r1, r2);
}

#[test]
fn hash_size_override_takes_precedence() {
    let c = HashdParamsBench {}
        .parse(&props(&[("hash-size", "12345"), ("fake-cpu-load", "")]), &dfl())
        .unwrap();
    let r = approximate(&c, &profile());
    assert_eq!(r.hash_size, 12345);
}

#[test]
fn unset_fields_fall_back_to_profile() {
    let c = HashdParamsBench {}.parse(&props(&[("fake-cpu-load", "")]), &dfl()).unwrap();
    let p = profile();
    let r = approximate(&c, &p);
    assert_eq!(r.hash_size, p.mean_file_size);
    assert_eq!(r.chunk_size, p.chunk_pages);
    assert_eq!(r.max_request_rate, FAKE_CPU_RPS_MAX);
    assert_eq!(r.memory_size, p.memory_size);
    assert_eq!(r.memory_fraction_milli, p.memory_fraction_milli);
}

#[test]
fn scenario_local_path_uses_profile_chunk_pages() {
    let c = HashdParamsBench {}
        .parse(&props(&[("balloon", "1048576"), ("fake-cpu-load", "")]), &dfl())
        .unwrap();
    assert!(c.use_local_approximation);
    assert_eq!(c.balloon_size, 1048576);
    let p = profile();
    match plan_run(&c, &p) {
        RunPlan::Local(r) => assert_eq!(r.chunk_size, p.chunk_pages),
        RunPlan::Delegated(_) => panic!("local configuration must take the local path"),
    }
}

#[test]
fn without_mode_switch_the_delegated_path_is_planned() {
    let c = HashdParamsBench {}.parse(&props(&[("balloon", "1048576")]), &dfl()).unwrap();
    assert!(matches!(plan_run(&c, &profile()), RunPlan::Delegated(_)));
}
