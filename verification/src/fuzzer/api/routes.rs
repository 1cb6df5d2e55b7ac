use vstd::prelude::*;
use crate::fuzzer::api::dtos::{JobOperationResponse, MetricsResponse};

verus! {

/// HTTP status 200 OK.
pub const STATUS_OK: u16 = 200;

/// HTTP status 201 Created.
pub const STATUS_CREATED: u16 = 201;

/// HTTP status 404 Not Found.
pub const STATUS_NOT_FOUND: u16 = 404;

/// HTTP status 500 Internal Server Error.
pub const STATUS_INTERNAL_SERVER_ERROR: u16 = 500;

/// What the service answered to a job operation.
#[derive(Debug)]
pub enum OperationOutcome {
    /// A create request, with the new job's identifier or the failure.
    Created(Result<u64, String>),
    /// A restart request for a job, and whether it succeeded.
    Restarted(u64, Result<(), String>),
    /// A stop request for a job, and whether it succeeded.
    Stopped(u64, Result<(), String>),
}

/// The status code and body that answer a job operation: 201 with the new
/// identifier for a created job, 500 when creation failed; 200 with the job
/// for a restart or stop, 404 when it failed; failures carry the message.
pub fn job_operation_response(outcome: OperationOutcome) -> (r: (u16, JobOperationResponse))
    ensures
        match outcome {
            OperationOutcome::Created(Ok(id)) => r.0 == STATUS_CREATED && r.1
                == (JobOperationResponse::Created { job_id: id }),
            OperationOutcome::Created(Err(m)) => r.0 == STATUS_INTERNAL_SERVER_ERROR && r.1
                == (JobOperationResponse::Error { message: m }),
            OperationOutcome::Restarted(id, Ok(_)) => r.0 == STATUS_OK && r.1
                == (JobOperationResponse::Restarted { job_id: id }),
            OperationOutcome::Restarted(_, Err(m)) => r.0 == STATUS_NOT_FOUND && r.1
                == (JobOperationResponse::Error { message: m }),
            OperationOutcome::Stopped(id, Ok(_)) => r.0 == STATUS_OK && r.1
                == (JobOperationResponse::Stopped { job_id: id }),
            OperationOutcome::Stopped(_, Err(m)) => r.0 == STATUS_NOT_FOUND && r.1
                == (JobOperationResponse::Error { message: m }),
        },
{
    match outcome {
        OperationOutcome::Created(Ok(job_id)) => (
            STATUS_CREATED,
            JobOperationResponse::Created { job_id },
        ),
        OperationOutcome::Created(Err(e)) => (
            STATUS_INTERNAL_SERVER_ERROR,
            JobOperationResponse::Error { message: e },
        ),
        OperationOutcome::Restarted(job_id, Ok(_)) => (
            STATUS_OK,
            JobOperationResponse::Restarted { job_id },
        ),
        OperationOutcome::Restarted(_, Err(e)) => (
            STATUS_NOT_FOUND,
            JobOperationResponse::Error { message: e },
        ),
        OperationOutcome::Stopped(job_id, Ok(_)) => (
            STATUS_OK,
            JobOperationResponse::Stopped { job_id },
        ),
        OperationOutcome::Stopped(_, Err(e)) => (
            STATUS_NOT_FOUND,
            JobOperationResponse::Error { message: e },
        ),
    }
}

/// The status code and body that answer a metrics request: 200 with the
/// snapshot, or 404 with the error.
pub fn job_metrics_response<S>(result: Result<S, String>) -> (r: (u16, MetricsResponse<S>))
    ensures
        match result {
            Ok(s) => r.0 == STATUS_OK && r.1 == MetricsResponse::<S>::Success(s),
            Err(e) => r.0 == STATUS_NOT_FOUND && r.1 == (MetricsResponse::<S>::Error { error: e }),
        },
{
    match result {
        Ok(snapshot) => (STATUS_OK, MetricsResponse::Success(snapshot)),
        Err(e) => (STATUS_NOT_FOUND, MetricsResponse::Error { error: e }),
    }
}

/// How reading the metrics of the streamed job went on a tick.
#[derive(Debug)]
pub enum TickReading {
    /// The job has no metrics (yet): keep polling.
    NoMetrics,
    /// The snapshot, serialized to JSON bytes.
    Serialized(Vec<u8>),
    /// The snapshot could not be serialized.
    SerializeFailed,
}

/// A frame the incoming side of the socket delivered.
#[derive(Debug)]
pub enum IncomingFrame {
    Close,
    Ping(Vec<u8>),
    /// Any other frame (text, binary, pong).
    Other,
    /// Receiving failed.
    Failed,
}

/// An event in a metrics stream connection.
#[derive(Debug)]
pub enum SocketEvent {
    /// The streaming interval (500 ms) elapsed.
    Tick(TickReading),
    /// The client sent something.
    Incoming(IncomingFrame),
    /// A frame was sent, successfully or not.
    Sent(bool),
}

/// A frame to send to the client.
#[derive(Debug)]
pub enum OutgoingFrame {
    Binary(Vec<u8>),
    Pong(Vec<u8>),
}

/// What the stream does after an event.
#[derive(Debug)]
pub enum SocketAction {
    /// Send a frame, then report `Sent`.
    Send(OutgoingFrame),
    /// Wait for the next event.
    Continue,
    /// Close the connection.
    Close,
}

/// Decides one event of a metrics stream: snapshots go out as binary frames,
/// pings are answered with pongs carrying the same payload, and the connection
/// closes on a close frame, a receive error, a serialization failure or a
/// failed send.
pub fn socket_step(event: SocketEvent) -> (a: SocketAction)
    ensures
        match event {
            SocketEvent::Tick(TickReading::NoMetrics) => a is Continue,
            SocketEvent::Tick(TickReading::Serialized(json)) => a == SocketAction::Send(
                OutgoingFrame::Binary(json),
            ),
            SocketEvent::Tick(TickReading::SerializeFailed) => a is Close,
            SocketEvent::Incoming(IncomingFrame::Close) => a is Close,
            SocketEvent::Incoming(IncomingFrame::Ping(data)) => a == SocketAction::Send(
                OutgoingFrame::Pong(data),
            ),
            SocketEvent::Incoming(IncomingFrame::Other) => a is Continue,
            SocketEvent::Incoming(IncomingFrame::Failed) => a is Close,
            SocketEvent::Sent(ok) => if ok {
                a is Continue
            } else {
                a is Close
            },
        },
{
    match event {
        SocketEvent::Tick(TickReading::NoMetrics) => SocketAction::Continue,
        SocketEvent::Tick(TickReading::Serialized(json)) => SocketAction::Send(
            OutgoingFrame::Binary(json),
        ),
        SocketEvent::Tick(TickReading::SerializeFailed) => SocketAction::Close,
        SocketEvent::Incoming(IncomingFrame::Close) => SocketAction::Close,
        SocketEvent::Incoming(IncomingFrame::Ping(data)) => SocketAction::Send(
            OutgoingFrame::Pong(data),
        ),
        SocketEvent::Incoming(IncomingFrame::Other) => SocketAction::Continue,
        SocketEvent::Incoming(IncomingFrame::Failed) => SocketAction::Close,
        SocketEvent::Sent(ok) => if ok {
            SocketAction::Continue
        } else {
            SocketAction::Close
        },
    }
}

} // verus!
