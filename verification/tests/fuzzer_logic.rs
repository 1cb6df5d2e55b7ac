use elerem::fuzzer::api::dtos::{JobOperationResponse, MetricsResponse};
use elerem::fuzzer::api::routes::{
    job_metrics_response, job_operation_response, socket_step, IncomingFrame, OperationOutcome,
    OutgoingFrame, SocketAction, SocketEvent, TickReading,
};
use elerem::fuzzer::metrics::StreamingStats;
use elerem::fuzzer::planner::{CaseIterator, TestScenario};
use elerem::fuzzer::ratelimiter::{
    decrease_rate, initial_permit_count, needs_permit, should_add_permit, RefillState,
};
use elerem::fuzzer::vuser::{
    after_action, controlled_step, should_spawn, ActionOutcome, ControlledStep, ControllerState,
    VUserStep,
};
use std::marker::PhantomData;

#[test]
fn operation_responses() {
    let (s, r) = job_operation_response(OperationOutcome::Created(Ok(3)));
    assert_eq!(s, 201);
    assert!(matches!(r, JobOperationResponse::Created { job_id: 3 }));
    let (s, r) = job_operation_response(OperationOutcome::Created(Err("down".to_string())));
    assert_eq!(s, 500);
    assert!(matches!(r, JobOperationResponse::Error { message } if message == "down"));
    let (s, r) = job_operation_response(OperationOutcome::Restarted(4, Ok(())));
    assert_eq!(s, 200);
    assert!(matches!(r, JobOperationResponse::Restarted { job_id: 4 }));
    let (s, r) = job_operation_response(OperationOutcome::Stopped(5, Err("Job 5 not found".to_string())));
    assert_eq!(s, 404);
    assert!(matches!(r, JobOperationResponse::Error { message } if message == "Job 5 not found"));
    let (s, r) = job_operation_response(OperationOutcome::Stopped(6, Ok(())));
    assert_eq!(s, 200);
    assert!(matches!(r, JobOperationResponse::Stopped { job_id: 6 }));
}

#[test]
fn metrics_responses() {
    let (s, r) = job_metrics_response::<u8>(Ok(9));
    assert_eq!(s, 200);
    assert!(matches!(r, MetricsResponse::Success(9)));
    let (s, r) = job_metrics_response::<u8>(Err("No metrics for job 1".to_string()));
    assert_eq!(s, 404);
    assert!(matches!(r, MetricsResponse::Error { error } if error == "No metrics for job 1"));
}

#[test]
fn metrics_socket_decisions() {
    assert!(matches!(socket_step(SocketEvent::Tick(TickReading::NoMetrics)), SocketAction::Continue));
    assert!(matches!(
        socket_step(SocketEvent::Tick(TickReading::Serialized(vec![1, 2]))),
        SocketAction::Send(OutgoingFrame::Binary(b)) if b == vec![1, 2]
    ));
    assert!(matches!(socket_step(SocketEvent::Tick(TickReading::SerializeFailed)), SocketAction::Close));
    assert!(matches!(socket_step(SocketEvent::Incoming(IncomingFrame::Close)), SocketAction::Close));
    assert!(matches!(
        socket_step(SocketEvent::Incoming(IncomingFrame::Ping(vec![7]))),
        SocketAction::Send(OutgoingFrame::Pong(p)) if p == vec![7]
    ));
    assert!(matches!(socket_step(SocketEvent::Incoming(IncomingFrame::Other)), SocketAction::Continue));
    assert!(matches!(socket_step(SocketEvent::Incoming(IncomingFrame::Failed)), SocketAction::Close));
    assert!(matches!(socket_step(SocketEvent::Sent(true)), SocketAction::Continue));
    assert!(matches!(socket_step(SocketEvent::Sent(false)), SocketAction::Close));
}

#[test]
fn refill_decisions() {
    let mut r = RefillState::new(2);
    assert_eq!(initial_permit_count(), 1);
    assert_eq!(r.observe_rate(2), None);
    assert!(should_add_permit(1, 2));
    assert!(!should_add_permit(2, 2));
    assert_eq!(r.observe_rate(1), Some(1));
    assert_eq!(r.last_rps, 1);
    assert_eq!(r.observe_rate(1), None);
    assert!(should_add_permit(0, 1));
    assert_eq!(r.observe_rate(0), Some(0));
    assert!(!should_add_permit(0, 0));
}

#[test]
fn zero_rate_means_unlimited() {
    assert!(!needs_permit(0));
    assert!(needs_permit(1));
    assert!(needs_permit(1000));
}

#[test]
fn rate_decrease_at_zero_wraps_around() {
    assert_eq!(decrease_rate(3), 2);
    assert_eq!(decrease_rate(1), 0);
    assert_eq!(decrease_rate(0), usize::MAX);
}

#[test]
fn streaming_statistics() {
    let mut s = StreamingStats::new();
    assert_eq!(s.success_ratio(), (1, 1));
    s.record(40, true);
    s.record(10, false);
    s.record(25, true);
    assert_eq!(s.total_count, 3);
    assert_eq!(s.success_count, 2);
    assert_eq!(s.failure_count, 1);
    assert_eq!(s.duration_sum, 75);
    assert_eq!(s.min_duration, Some(10));
    assert_eq!(s.max_duration, Some(40));
    assert_eq!(s.success_ratio(), (2, 3));
    let mean = s.duration_sum / s.total_count as u128;
    assert!(s.min_duration.unwrap() as u128 <= mean && mean <= s.max_duration.unwrap() as u128);
}

#[test]
fn virtual_user_decisions() {
    assert!(should_spawn(0, 1));
    assert!(!should_spawn(1, 1));
    assert!(!should_spawn(0, 0));
    assert_eq!(after_action(ActionOutcome::MetricsSent), VUserStep::Continue);
    assert_eq!(after_action(ActionOutcome::TaskFailed), VUserStep::Continue);
    assert_eq!(after_action(ActionOutcome::ChannelUnavailable), VUserStep::Stop);
    assert_eq!(controlled_step(ControllerState::Running), ControlledStep::Execute);
    assert_eq!(controlled_step(ControllerState::Paused), ControlledStep::WaitForChange);
    assert_eq!(controlled_step(ControllerState::Stopped), ControlledStep::Stop);
}

#[test]
fn case_iterator_starts_fresh() {
    let scenario: TestScenario<u8> = TestScenario {
        scenario_id: "s".to_string(),
        description: "d".to_string(),
        action: PhantomData,
    };
    let it: CaseIterator<u8> = scenario.into_cases();
    assert_eq!(it.current_index, 0);
    assert_eq!(it.total_cases, None);
    assert_eq!(it.scenario.scenario_id, "s");
}

#[test]
fn permits_after_a_decrease_stay_within_cap() {
    // Rate 2: one tick lifts the single initial permit to two.
    let mut rate: usize = 2;
    let mut available = initial_permit_count();
    if should_add_permit(available, rate) {
        available += 1;
    }
    assert_eq!(available, 2);
    // One decrease: rate 1, the two permits stay, within max(1, 1 + 1).
    rate = decrease_rate(rate);
    assert_eq!(rate, 1);
    assert!(!should_add_permit(available, rate));
    assert!(available <= rate + 1);
    // Down to zero and once more: the rate wraps and refills resume.
    rate = decrease_rate(decrease_rate(rate));
    assert_eq!(rate, usize::MAX);
    assert!(should_add_permit(available, rate));
}
