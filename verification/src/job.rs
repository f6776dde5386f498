//! Orchestration and reporting: which estimation path a configuration
//! selects, and the two-line human-readable report of a finished run.

use vstd::prelude::*;
use crate::config::JobConfig;
use crate::delegated::{extra_args_spec, start_request, StartRequest};
use crate::local::{approx_spec, approximate, DefaultProfile};
use crate::result::EstimationResult;
use crate::units::{dec_str, format_frac3, format_size, frac3_str, size_str, u64_to_dec};

verus! {

/// What one run does: the locally approximated result, ready at once, or the
/// start request to hand to the external calibration operation.
#[derive(Debug, Clone, PartialEq, Eq)]
pub enum RunPlan {
    /// The local path: the result, with nothing left to execute.
    Local(EstimationResult),
    /// The delegated path: start this request, then wait for convergence.
    Delegated(StartRequest),
}

/// Chooses the estimation path: the local approximation exactly when the mode
/// switch asks for it, else the delegated start request.  Only the delegated
/// path entails any side effect, and none happens here.
pub fn plan_run(c: &JobConfig, p: &DefaultProfile) -> (r: RunPlan)
    ensures
        c.use_local_approximation ==> (r matches RunPlan::Local(res) && res == approx_spec(
            *c,
            *p,
        )),
        !c.use_local_approximation ==> (r matches RunPlan::Delegated(req) && req.balloon_size
            == c.balloon_size && req.log_rate == c.log_rate && req.extra_args@.map_values(
            |s: String| s@,
        ) == extra_args_spec(*c)),
{
    if c.use_local_approximation {
        RunPlan::Local(approximate(c, p))
    } else {
        RunPlan::Delegated(start_request(c))
    }
}

/// The two-line report: the configured inputs, then the computed outputs,
/// with byte quantities in human-readable units and the fraction to three
/// decimal places.
pub open spec fn report_spec(c: JobConfig, r: EstimationResult) -> Seq<char> {
    "Params: balloon_size="@ + size_str(c.balloon_size as nat) + " log_bps="@ + size_str(
        c.log_rate as nat,
    ) + "\n\nResult: hash_size="@ + size_str(r.hash_size as nat) + " rps_max="@ + dec_str(
        r.max_request_rate as nat,
    ) + " mem_size="@ + size_str(r.memory_size as nat) + " mem_frac="@ + frac3_str(
        r.memory_fraction_milli as nat,
    ) + " chunk_pages="@ + dec_str(r.chunk_size as nat) + "\n"@
}

/// Renders the report for a finished run: exactly [`report_spec`], total on
/// every well-formed result.
pub fn format_result(c: &JobConfig, r: &EstimationResult) -> (out: String)
    ensures
        out@ == report_spec(*c, *r),
{
    let mut out = String::from_str("Params: balloon_size=");
    out.append(format_size(c.balloon_size as u64).as_str());
    out.append(" log_bps=");
    out.append(format_size(c.log_rate).as_str());
    out.append("\n\nResult: hash_size=");
    out.append(format_size(r.hash_size as u64).as_str());
    out.append(" rps_max=");
    out.append(u64_to_dec(r.max_request_rate as u64).as_str());
    out.append(" mem_size=");
    out.append(format_size(r.memory_size).as_str());
    out.append(" mem_frac=");
    out.append(format_frac3(r.memory_fraction_milli as u64).as_str());
    out.append(" chunk_pages=");
    out.append(u64_to_dec(r.chunk_size as u64).as_str());
    out.append("\n");
    proof {
        assert(out@ =~= report_spec(*c, *r));
    }
    out
}

} // verus!
