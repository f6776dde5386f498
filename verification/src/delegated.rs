//! The delegated path's start request: what the external calibration
//! operation is asked to do.
//!
//! The request carries the balloon size and log rate, and encodes each
//! configured override as an additional start argument.  What the external
//! system answers is consumed through [`crate::wait`] and read back through
//! [`crate::result::EstimationResult::from_report`].

use vstd::prelude::*;
use crate::config::JobConfig;
use crate::units::{dec_str, u64_to_dec};

verus! {

/// The start request for the external calibration operation.
#[derive(Debug, Clone, PartialEq, Eq)]
pub struct StartRequest {
    /// Memory balloon size in bytes.
    pub balloon_size: usize,
    /// Target log write rate in bytes per second.
    pub log_rate: u64,
    /// One `--bench-...=N` argument per configured override.
    pub extra_args: Vec<String>,
}

/// The override arguments `c` calls for, in a fixed order: hash size, chunk
/// pages, request-rate ceiling — each present exactly when configured.
pub open spec fn extra_args_spec(c: JobConfig) -> Seq<Seq<char>> {
    let hash = match c.hash_size {
        Some(v) => seq!["--bench-hash-size="@ + dec_str(v as nat)],
        None => Seq::<Seq<char>>::empty(),
    };
    let chunk = match c.chunk_size {
        Some(v) => seq!["--bench-chunk-pages="@ + dec_str(v as nat)],
        None => Seq::<Seq<char>>::empty(),
    };
    let rps = match c.max_request_rate {
        Some(v) => seq!["--bench-rps-max="@ + dec_str(v as nat)],
        None => Seq::<Seq<char>>::empty(),
    };
    hash + chunk + rps
}

/// Builds the start request for `c`: the balloon size and log rate are passed
/// through, and the extra arguments are exactly [`extra_args_spec`].
pub fn start_request(c: &JobConfig) -> (r: StartRequest)
    ensures
        r.balloon_size == c.balloon_size,
        r.log_rate == c.log_rate,
        r.extra_args@.map_values(|s: String| s@) == extra_args_spec(*c),
{
    let mut extra_args: Vec<String> = Vec::new();
    if let Some(v) = c.hash_size {
        extra_args.push(String::from_str("--bench-hash-size=").concat(u64_to_dec(v as u64).as_str()));
    }
    if let Some(v) = c.chunk_size {
        extra_args.push(
            String::from_str("--bench-chunk-pages=").concat(u64_to_dec(v as u64).as_str()),
        );
    }
    if let Some(v) = c.max_request_rate {
        extra_args.push(String::from_str("--bench-rps-max=").concat(u64_to_dec(v as u64).as_str()));
    }
    proof {
        assert(extra_args@.map_values(|s: String| s@) =~= extra_args_spec(*c));
    }
    StartRequest { balloon_size: c.balloon_size, log_rate: c.log_rate, extra_args }
}

} // verus!
