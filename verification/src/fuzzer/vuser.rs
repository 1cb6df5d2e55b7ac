use vstd::prelude::*;

verus! {

/// How one spawned action of a virtual user ended, as seen by the virtual user.
#[derive(Debug, Clone, Copy, PartialEq, Eq, Structural)]
pub enum ActionOutcome {
    /// The action finished and its metrics went into the channel.
    MetricsSent,
    /// The action finished but the channel was full or closed.
    ChannelUnavailable,
    /// The task running the action failed; it produced no metrics.
    TaskFailed,
}

/// What a virtual user does next.
#[derive(Debug, Clone, Copy, PartialEq, Eq, Structural)]
pub enum VUserStep {
    Continue,
    Stop,
}

/// A virtual user keeps spawning actions while fewer than `parallel_actions`
/// run in its current batch.
pub fn should_spawn(in_flight: usize, parallel_actions: u8) -> (b: bool)
    ensures
        b == (in_flight < parallel_actions as usize),
{
    in_flight < parallel_actions as usize
}

/// After an action of the batch ends: a virtual user stops as soon as it cannot
/// hand metrics upstream; a failed task is skipped.
pub fn after_action(outcome: ActionOutcome) -> (s: VUserStep)
    ensures
        s == VUserStep::Stop <==> outcome == ActionOutcome::ChannelUnavailable,
{
    match outcome {
        ActionOutcome::ChannelUnavailable => VUserStep::Stop,
        _ => VUserStep::Continue,
    }
}

/// The state a test controller broadcasts to its virtual users.
#[derive(Debug, Clone, Copy, PartialEq, Eq, Structural)]
pub enum ControllerState {
    Running,
    Paused,
    Stopped,
}

/// What a controlled virtual user does in a state.
#[derive(Debug, Clone, Copy, PartialEq, Eq, Structural)]
pub enum ControlledStep {
    /// Execute one request and send its metrics.
    Execute,
    /// Wait until the state changes (stop if the controller is gone).
    WaitForChange,
    /// Leave the request loop.
    Stop,
}

/// A running user executes, a paused one waits, a stopped one leaves.
pub fn controlled_step(state: ControllerState) -> (s: ControlledStep)
    ensures
        state == ControllerState::Running ==> s == ControlledStep::Execute,
        state == ControllerState::Paused ==> s == ControlledStep::WaitForChange,
        state == ControllerState::Stopped ==> s == ControlledStep::Stop,
{
    match state {
        ControllerState::Running => ControlledStep::Execute,
        ControllerState::Paused => ControlledStep::WaitForChange,
        ControllerState::Stopped => ControlledStep::Stop,
    }
}

} // verus!
