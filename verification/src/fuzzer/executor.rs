use vstd::prelude::*;

verus! {

/// Errors that can occur while executing a scenario.
#[derive(Debug)]
pub enum ExecutionError {
    ScenarioFailed(String),
    StoppedByScheduler,
    Timeout,
}

} // verus!
