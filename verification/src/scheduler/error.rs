//! What can go wrong when a task is submitted.

use vstd::prelude::*;

verus! {

/// The one way in which submitting a task fails.
#[derive(Debug, Clone, Copy, PartialEq, Eq, Structural)]
pub enum ScheduleError {
    /// The background loop is not there to take the task: it could not be
    /// started or its control channel is closed. The task has been discarded.
    TaskRunnerUnavailable,
}

impl ScheduleError {
    /// The message shown for this error.
    pub fn message(&self) -> (text: String)
        ensures
            text@ == "the task runner does not seem to be able to start"@,
    {
        "the task runner does not seem to be able to start".to_owned()
    }
}

} // verus!
