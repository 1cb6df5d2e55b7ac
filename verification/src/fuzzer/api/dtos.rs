use vstd::prelude::*;
use crate::fuzzer::config::Configuration;

verus! {

/// A request for a job operation.
#[derive(Debug)]
pub enum JobOperation {
    /// Create a new fuzzer job
    Create { config: Configuration },
    /// Restart an existing job
    Restart { job_id: u64 },
    /// Stop a running job
    Stop { job_id: u64 },
}

/// The answer to a job operation.
#[derive(Debug)]
pub enum JobOperationResponse {
    /// Job created successfully
    Created { job_id: u64 },
    /// Job restarted
    Restarted { job_id: u64 },
    /// Job stopped
    Stopped { job_id: u64 },
    /// Error occurred
    Error { message: String },
}

/// The answer to a metrics request, carrying a snapshot `S` on success.
#[derive(Debug)]
pub enum MetricsResponse<S> {
    Success(S),
    Error { error: String },
}

} // verus!
