//! The lifecycle state of a simulated process.

use vstd::prelude::*;

verus! {

/// Lifecycle state of a process.
///
/// A process cycles `Waiting -> Ready -> Running -> Waiting -> ...` for the
/// whole run.  `Dormant` is a reserved sentinel: the engine never enters it,
/// and the configuration loader rejects it as an initial state.
#[derive(Clone, Copy, Debug, PartialEq, Eq, Structural)]
pub enum ProcessState {
    Dormant,
    Waiting,
    Ready,
    Running,
}

impl ProcessState {
    /// The label that `label` returns, as a sequence of characters.
    pub open spec fn label_spec(self) -> Seq<char> {
        match self {
            ProcessState::Dormant => "DORMANT"@,
            ProcessState::Waiting => "WAITING"@,
            ProcessState::Ready => "READY"@,
            ProcessState::Running => "RUNNING"@,
        }
    }

    /// Human-readable label of the state, for reports and rendered traces.
    pub fn label(&self) -> (r: String)
        ensures
            r@ == self.label_spec(),
    {
        match self {
            ProcessState::Dormant => "DORMANT".to_owned(),
            ProcessState::Waiting => "WAITING".to_owned(),
            ProcessState::Ready => "READY".to_owned(),
            ProcessState::Running => "RUNNING".to_owned(),
        }
    }
}

} // verus!
