//! A bundle of the timing figures of one process definition.

use vstd::prelude::*;

verus! {

/// A process's activation period together with its cyclic list of
/// per-activation execution times.
pub struct ProcessTime {
    pub cycle: u64,
    pub proc: Vec<u64>,
}

impl ProcessTime {
    /// Bundles a period and an execution-time list.
    pub fn new(cycle: u64, proc: Vec<u64>) -> (r: ProcessTime)
        ensures
            r.cycle == cycle,
            r.proc@ == proc@,
    {
        ProcessTime { cycle, proc }
    }
}

} // verus!
