//! The process-wide defaults both estimation paths fall back to, read from
//! the agent's default command configuration and the load generator's default
//! parameter set.

use vstd::prelude::*;
use crate::config::CmdDefaults;
use crate::local::DefaultProfile;

verus! {

/// The default profile's page-cache fraction of the memory footprint, in
/// thousandths: the load generator's default `file_frac` of one quarter.
pub const DFL_FILE_FRAC_MILLI: u32 = 250;

/// Relies on `rd_agent_intf::Cmd::default`: the default balloon size is an
/// eighth of system memory capped at one gibibyte, and the default hashd
/// command's log write rate is the fixed `rd_hashd_intf::Params` default.
#[verifier::external_body]
fn dfl_cmd_settings() -> (r: (usize, u64))
    ensures
        r.0 <= 1073741824,
        r.1 == 1100794u64,
{
    let cmd = rd_agent_intf::Cmd::default();
    (cmd.bench_hashd_balloon_size, cmd.hashd[0].log_bps)
}

/// Relies on `rd_hashd_intf::Params::default`: the default parameter set's
/// mean file size and chunk page count are fixed constants.
#[verifier::external_body]
fn dfl_params_sizes() -> (r: (usize, usize))
    ensures
        r.0 == 1258291usize,
        r.1 == 25usize,
{
    let params = rd_hashd_intf::Params::default();
    (params.file_size_mean, params.chunk_pages)
}

/// Relies on `rd_hashd_intf::Args::with_mem_size`: the default memory
/// footprint is four times the given memory share.
#[verifier::external_body]
fn dfl_args_size(mem_size: usize) -> (r: u64)
    requires
        mem_size <= 0x3fff_ffff_ffff_ffff,
    ensures
        r == 4 * mem_size as u64,
{
    rd_hashd_intf::Args::with_mem_size(mem_size).size
}

/// The default command configuration's balloon size and log rate.
pub fn default_cmd_defaults() -> (r: CmdDefaults)
    ensures
        r.balloon_size <= 1073741824,
        r.log_rate == 1100794u64,
{
    let settings = dfl_cmd_settings();
    CmdDefaults { balloon_size: settings.0, log_rate: settings.1 }
}

/// The default sizing profile for a machine with `mem_size` bytes of memory.
pub fn default_profile(mem_size: usize) -> (r: DefaultProfile)
    requires
        mem_size <= 0x3fff_ffff_ffff_ffff,
    ensures
        r.memory_size == 4 * mem_size as u64,
        r.mean_file_size == 1258291usize,
        r.chunk_pages == 25usize,
        r.memory_fraction_milli == DFL_FILE_FRAC_MILLI,
        r.wf(),
{
    let sizes = dfl_params_sizes();
    DefaultProfile {
        memory_size: dfl_args_size(mem_size),
        mean_file_size: sizes.0,
        chunk_pages: sizes.1,
        memory_fraction_milli: DFL_FILE_FRAC_MILLI,
    }
}

} // verus!
