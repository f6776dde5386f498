//! The local approximation path: a parameter set computed from the
//! configuration and a static default sizing profile, with no external
//! execution, no I/O and no waiting.

use vstd::prelude::*;
use crate::config::JobConfig;
use crate::result::EstimationResult;

verus! {

/// The request-rate ceiling used when no override is configured.
pub const FAKE_CPU_RPS_MAX: u32 = 2000;

/// The process-wide default sizing profile, derived from total system memory
/// and the load generator's default parameter set.
#[derive(Clone, Copy, Debug, PartialEq, Eq)]
pub struct DefaultProfile {
    /// Default memory footprint in bytes.
    pub memory_size: u64,
    /// Default mean file access size in bytes.
    pub mean_file_size: usize,
    /// Default memory access chunk size in pages.
    pub chunk_pages: usize,
    /// Default page-cache fraction of the footprint, in thousandths.
    pub memory_fraction_milli: u32,
}

impl DefaultProfile {
    /// The fraction never exceeds one.
    pub open spec fn wf(&self) -> bool {
        self.memory_fraction_milli <= 1000
    }
}

/// The approximate parameter set for `c` under the profile `p`: each override
/// wins over its profile default; the footprint and fraction come from the
/// profile unchanged; the rate ceiling falls back to [`FAKE_CPU_RPS_MAX`].
pub open spec fn approx_spec(c: JobConfig, p: DefaultProfile) -> EstimationResult {
    EstimationResult {
        hash_size: match c.hash_size {
            Some(v) => v,
            None => p.mean_file_size,
        },
        max_request_rate: match c.max_request_rate {
            Some(v) => v,
            None => FAKE_CPU_RPS_MAX,
        },
        memory_size: p.memory_size,
        memory_fraction_milli: p.memory_fraction_milli,
        chunk_size: match c.chunk_size {
            Some(v) => v,
            None => p.chunk_pages,
        },
    }
}

/// Computes the local approximation: exactly [`approx_spec`].
pub fn approximate(c: &JobConfig, p: &DefaultProfile) -> (r: EstimationResult)
    ensures
        r == approx_spec(*c, *p),
        p.wf() ==> r.wf(),
{
    EstimationResult {
        hash_size: match c.hash_size {
            Some(v) => v,
            None => p.mean_file_size,
        },
        max_request_rate: match c.max_request_rate {
            Some(v) => v,
            None => FAKE_CPU_RPS_MAX,
        },
        memory_size: p.memory_size,
        memory_fraction_milli: p.memory_fraction_milli,
        chunk_size: match c.chunk_size {
            Some(v) => v,
            None => p.chunk_pages,
        },
    }
}

/// The local approximation is deterministic: identical configuration and
/// identical defaults give the identical result.
pub proof fn lemma_local_approximation_deterministic(
    c1: JobConfig,
    p1: DefaultProfile,
    c2: JobConfig,
    p2: DefaultProfile,
)
    requires
        c1 == c2,
        p1 == p2,
    ensures
        approx_spec(c1, p1) == approx_spec(c2, p2),
{
}

/// Configured overrides take precedence over the profile defaults, whatever
/// the profile holds.
pub proof fn lemma_override_precedence(c: JobConfig, p: DefaultProfile)
    ensures
        c.hash_size is Some ==> approx_spec(c, p).hash_size == c.hash_size->0,
        c.chunk_size is Some ==> approx_spec(c, p).chunk_size == c.chunk_size->0,
        c.max_request_rate is Some ==> approx_spec(c, p).max_request_rate == c.max_request_rate->0,
{
}

} // verus!
