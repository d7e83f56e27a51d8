//! The global settings of a pipeline, as the controller reads them.
use vstd::prelude::*;

verus! {

/// The backpressure threshold of an endpoint where none is configured.
pub fn default_max_buffered_records() -> (r: u64)
    ensures
        r == 1_000_000,
{
    1_000_000
}

/// The number of worker threads where none is configured.
pub fn default_workers() -> (r: u16)
    ensures
        r == 1,
{
    1
}

/// Global pipeline configuration settings.
#[derive(Clone, Debug, PartialEq, Eq, Structural)]
pub struct RuntimeConfig {
    /// Number of worker threads.
    pub workers: u16,
    /// Enable the CPU profiler.
    pub cpu_profiler: bool,
    /// Minimal input batch size: input records are held back until at least
    /// this many have arrived, across all endpoints, or until
    /// `max_buffering_delay_usecs` has passed since the first one.
    pub min_batch_size_records: u64,
    /// Maximal delay in microseconds to wait for `min_batch_size_records`.
    pub max_buffering_delay_usecs: u64,
}

} // verus!
