//! Configuration of the wavelet transform pipeline.

use vstd::prelude::*;

verus! {

/// Number of worker processors assumed where the machine does not say.
pub const DEFAULT_N_CPUS: usize = 4;

/// Configuration for running the wavelet transform pipeline; it bounds the
/// memory that a continuous wavelet transform takes.
#[derive(Debug, Clone, Copy, PartialEq, Eq, Structural)]
pub struct TransformConfig {
    pub block_size: usize,
    pub overlap_size: usize,
    /// Number of processors used for the number crunching.
    pub n_cpus: usize,
}

impl TransformConfig {
    /// A configuration with the given block and overlap sizes, using the
    /// available parallelism of the machine (`available_parallelism`, as
    /// the system reports it, never zero), or `DEFAULT_N_CPUS` where it is
    /// unknown.
    pub fn new(block_size: usize, overlap_size: usize, available_parallelism: Option<usize>) -> (r:
        Self)
        requires
            available_parallelism != Some(0usize),
        ensures
            r.n_cpus >= 1,
            r.block_size == block_size,
            r.overlap_size == overlap_size,
            r.n_cpus == match available_parallelism {
                Some(n) => n,
                None => DEFAULT_N_CPUS,
            },
    {
        let n_cpus = match available_parallelism {
            Some(n) => n,
            None => DEFAULT_N_CPUS,
        };
        TransformConfig { block_size, overlap_size, n_cpus }
    }
}

} // verus!
