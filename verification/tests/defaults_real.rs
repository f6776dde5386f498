//! The process-wide defaults, checked against the agent and load-generator
//! crates they are read from.

use hashd_params::defaults::{default_cmd_defaults, default_profile, DFL_FILE_FRAC_MILLI};

#[test]
fn profile_footprint_is_four_times_the_memory_share() {
    let p = default_profile(1024);
    assert_eq!(p.memory_size, 4096);
    let p = default_profile(16 << 30);
    assert_eq!(p.memory_size, 64u64 << 30);
}

#[test]
fn profile_matches_the_load_generator_defaults() {
    let dfl_params = rd_hashd_intf::Params::default();
    let p = default_profile(1 << 30);
    assert_eq!(p.mean_file_size, dfl_params.file_size_mean);
    assert_eq!(p.chunk_pages, dfl_params.chunk_pages);
    assert_eq!(p.memory_fraction_milli, DFL_FILE_FRAC_MILLI);
    assert_eq!(p.memory_fraction_milli as f64 / 1000.0, dfl_params.file_frac);
}

#[test]
fn command_defaults_match_the_agent_defaults() {
    let dfl_cmd = rd_agent_intf::Cmd::default();
    let d = default_cmd_defaults();
    assert_eq!(d.balloon_size, dfl_cmd.bench_hashd_balloon_size);
    assert_eq!(d.log_rate, dfl_cmd.hashd[0].log_bps);
    assert_eq!(d.log_rate, rd_hashd_intf::Params::default().log_bps);
    assert!(d.balloon_size <= 1 << 30);
}

#[test]
fn profile_footprint_matches_the_default_argument_set() {
    let mem: usize = 1 << 30;
    let args = rd_hashd_intf::Args::with_mem_size(mem);
    assert_eq!(default_profile(mem).memory_size, args.size);
}
