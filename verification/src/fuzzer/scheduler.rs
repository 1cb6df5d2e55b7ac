use vstd::prelude::*;
use std::time::Duration;

verus! {

/// Scheduler configuration.
#[derive(Debug, Clone, Copy)]
pub struct SchedulerConfig {
    /// Maximum number of concurrent executors (scenarios running in parallel)
    pub max_concurrent_scenarios: usize,
    /// Number of VUsers per executor
    pub vusers_per_scenario: usize,
    /// How often to check for stopping conditions
    pub check_interval: Duration,
    /// Global stopping conditions
    pub global_stopping_conditions: GlobalStoppingConditions,
}

/// Global stopping conditions (across all scenarios).
#[derive(Debug, Clone, Copy)]
pub struct GlobalStoppingConditions {
    /// Stop after total duration
    pub max_duration: Option<Duration>,
    /// Stop after total number of scenarios
    pub max_scenarios: Option<usize>,
    /// Stop after total number of actions
    pub max_total_actions: Option<usize>,
}

/// Errors that can occur in the scheduler.
#[derive(Debug)]
pub enum SchedulerError {
    ExecutorFailed(String),
    GlobalTimeout,
    StoppedByUser,
}

} // verus!
