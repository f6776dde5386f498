//! The calibrated parameter set one estimation run produces.

use vstd::prelude::*;

verus! {

/// The calibrated parameter set.  Both estimation paths produce this shape;
/// nothing in it betrays which path produced it.
#[derive(Clone, Copy, Debug, PartialEq, Eq)]
pub struct EstimationResult {
    /// Mean hash input size in bytes.
    pub hash_size: usize,
    /// Maximum request rate in requests per second.
    pub max_request_rate: u32,
    /// Memory footprint base in bytes.
    pub memory_size: u64,
    /// Fraction of the footprint to use, in thousandths (at most 1000).
    pub memory_fraction_milli: u32,
    /// Memory access chunk size in pages.
    pub chunk_size: usize,
}

impl EstimationResult {
    /// The fraction never exceeds one.
    pub open spec fn wf(&self) -> bool {
        self.memory_fraction_milli <= 1000
    }

    /// Builds the result the external system's persisted report describes.
    /// Every field is taken as reported; the fraction, reported in
    /// thousandths, is capped at one.
    pub fn from_report(
        hash_size: usize,
        max_request_rate: u32,
        memory_size: u64,
        memory_fraction_milli: u32,
        chunk_size: usize,
    ) -> (r: EstimationResult)
        ensures
            r.hash_size == hash_size,
            r.max_request_rate == max_request_rate,
            r.memory_size == memory_size,
            r.memory_fraction_milli == if memory_fraction_milli > 1000 {
                1000u32
            } else {
                memory_fraction_milli
            },
            r.chunk_size == chunk_size,
            r.wf(),
    {
        EstimationResult {
            hash_size,
            max_request_rate,
            memory_size,
            memory_fraction_milli: if memory_fraction_milli > 1000 {
                1000
            } else {
                memory_fraction_milli
            },
            chunk_size,
        }
    }
}

} // verus!
