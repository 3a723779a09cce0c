//! The lifecycle of the agent: a fail-fast startup sequence, the monitoring
//! phase and the shutdown.

use vstd::prelude::*;

verus! {

/// The steps of the startup sequence, in their order.
#[derive(Clone, Copy, Debug, PartialEq, Eq, Structural)]
pub enum StartupStep {
    /// Load the bytecode artifact of the classifier.
    LoadArtifact,
    /// Initialise the bridge that forwards log records of the classifier.
    InitLogging,
    /// Locate the entry point of the classifier by its name.
    LocateProgram,
    /// Load the program into the kernel, which verifies it.
    LoadProgram,
    /// Attach the program to the configured network interface.
    AttachInterface,
    /// Open the counter region that the classifier shares with the agent.
    OpenCounters,
}

/// Where the agent is in its lifecycle.
#[derive(Clone, Copy, Debug, PartialEq, Eq, Structural)]
pub enum LifecycleState {
    /// The given startup step is due or under way.
    Starting(StartupStep),
    /// The classifier is attached and the aggregator runs.
    Running,
    /// The given startup step failed; the agent does not run.
    Failed(StartupStep),
    /// The agent was shut down in order.
    Stopped,
}

/// What happened outside the lifecycle manager.
#[derive(Clone, Copy, Debug, PartialEq, Eq, Structural)]
pub enum LifecycleEvent {
    /// The startup step that was due succeeded.
    StepSucceeded,
    /// The startup step that was due failed.
    StepFailed,
    /// The monitoring loop ended on a termination signal.
    ShutdownRequested,
}

/// What the caller of the lifecycle manager has to do next.
#[derive(Clone, Copy, Debug, PartialEq, Eq, Structural)]
pub enum LifecycleAction {
    /// Nothing.
    Nothing,
    /// Perform the given startup step and report how it ended.
    Perform(StartupStep),
    /// Log a warning about the step that failed, then perform the given
    /// startup step and report how it ended.
    WarnThenPerform(StartupStep),
    /// Log readiness and run the monitoring loop.
    Monitor,
    /// Report the cause of the failure and exit with the given code, which is
    /// not zero.
    ExitFailure(u8),
    /// Log the shutdown, detach the classifier and exit with code zero.
    DetachAndExit,
}

/// The exit code of a startup failure.
pub const EXIT_FAILURE: u8 = 1;

/// Whether the agent cannot run without the step: true of every step but the
/// initialisation of logging, whose failure is only a warning.
pub open spec fn is_fatal(step: StartupStep) -> bool {
    step != StartupStep::InitLogging
}

/// The step that follows `step`, if `step` is not the last one.
pub open spec fn step_after(step: StartupStep) -> Option<StartupStep> {
    match step {
        StartupStep::LoadArtifact => Some(StartupStep::InitLogging),
        StartupStep::InitLogging => Some(StartupStep::LocateProgram),
        StartupStep::LocateProgram => Some(StartupStep::LoadProgram),
        StartupStep::LoadProgram => Some(StartupStep::AttachInterface),
        StartupStep::AttachInterface => Some(StartupStep::OpenCounters),
        StartupStep::OpenCounters => None,
    }
}

/// The transition of the lifecycle: the state that follows `state` on
/// `event`, and the action that the event calls for.
///
/// During startup a step that succeeded, or that failed without being fatal,
/// leads to the next step, and behind the last step to the running state. A
/// fatal step that failed ends the startup for good. A shutdown request is
/// honoured in the running state only. An event that does not fit the state
/// changes nothing.
pub open spec fn lifecycle_transition(state: LifecycleState, event: LifecycleEvent) -> (
    LifecycleState,
    LifecycleAction,
) {
    match (state, event) {
        (LifecycleState::Starting(step), LifecycleEvent::StepSucceeded) => match step_after(step) {
            Some(next) => (LifecycleState::Starting(next), LifecycleAction::Perform(next)),
            None => (LifecycleState::Running, LifecycleAction::Monitor),
        },
        (LifecycleState::Starting(step), LifecycleEvent::StepFailed) => if is_fatal(step) {
            (LifecycleState::Failed(step), LifecycleAction::ExitFailure(EXIT_FAILURE))
        } else {
            match step_after(step) {
                Some(next) => (
                    LifecycleState::Starting(next),
                    LifecycleAction::WarnThenPerform(next),
                ),
                None => (LifecycleState::Running, LifecycleAction::Monitor),
            }
        },
        (LifecycleState::Running, LifecycleEvent::ShutdownRequested) => (
            LifecycleState::Stopped,
            LifecycleAction::DetachAndExit,
        ),
        _ => (state, LifecycleAction::Nothing),
    }
}

/// The state after the events `events`, taken in order from `state`.
pub open spec fn state_after(state: LifecycleState, events: Seq<LifecycleEvent>) -> LifecycleState
    decreases events.len(),
{
    if events.len() == 0 {
        state
    } else {
        lifecycle_transition(state_after(state, events.drop_last()), events.last()).0
    }
}

/// The exit code of the process in `state`: zero after an orderly shutdown,
/// not zero after a failed startup, none while the agent starts or runs.
pub open spec fn exit_code_of(state: LifecycleState) -> Option<u8> {
    match state {
        LifecycleState::Stopped => Some(0u8),
        LifecycleState::Failed(_) => Some(EXIT_FAILURE),
        _ => None,
    }
}

/// The lifecycle manager. It starts with the first startup step due.
#[derive(Clone, Copy, Debug)]
pub struct LifecycleManager {
    state: LifecycleState,
}

impl LifecycleManager {
    /// Where the agent is in its lifecycle.
    pub closed spec fn spec_state(&self) -> LifecycleState {
        self.state
    }

    /// A manager whose first startup step, loading the artifact, is due.
    pub fn new() -> (manager: LifecycleManager)
        ensures
            manager.spec_state() == LifecycleState::Starting(StartupStep::LoadArtifact),
    {
        LifecycleManager { state: LifecycleState::Starting(StartupStep::LoadArtifact) }
    }

    /// Where the agent is in its lifecycle.
    #[verifier::when_used_as_spec(spec_state)]
    pub fn state(&self) -> (state: LifecycleState)
        ensures
            state == self.spec_state(),
    {
        self.state
    }

    /// Takes `event` and says what to do next.
    pub fn step(&mut self, event: LifecycleEvent) -> (action: LifecycleAction)
        ensures
            (final(self).state(), action) == lifecycle_transition(old(self).state(), event),
    {
        match self.state {
            LifecycleState::Starting(step) => {
                let proceed = match event {
                    LifecycleEvent::StepSucceeded => true,
                    LifecycleEvent::StepFailed => {
                        if fatal(step) {
                            self.state = LifecycleState::Failed(step);
                            return LifecycleAction::ExitFailure(EXIT_FAILURE);
                        }
                        false
                    },
                    LifecycleEvent::ShutdownRequested => {
                        return LifecycleAction::Nothing;
                    },
                };
                match following(step) {
                    Some(next) => {
                        self.state = LifecycleState::Starting(next);
                        if proceed {
                            LifecycleAction::Perform(next)
                        } else {
                            LifecycleAction::WarnThenPerform(next)
                        }
                    },
                    None => {
                        self.state = LifecycleState::Running;
                        LifecycleAction::Monitor
                    },
                }
            },
            LifecycleState::Running => match event {
                LifecycleEvent::ShutdownRequested => {
                    self.state = LifecycleState::Stopped;
                    LifecycleAction::DetachAndExit
                },
                _ => LifecycleAction::Nothing,
            },
            _ => LifecycleAction::Nothing,
        }
    }

    /// The exit code of the process: zero after an orderly shutdown, not zero
    /// after a failed startup, none while the agent starts or runs.
    pub fn exit_code(&self) -> (code: Option<u8>)
        ensures
            code == exit_code_of(self.state()),
    {
        match self.state {
            LifecycleState::Stopped => Some(0),
            LifecycleState::Failed(_) => Some(EXIT_FAILURE),
            _ => None,
        }
    }
}

/// Whether the agent cannot run without `step`.
pub fn fatal(step: StartupStep) -> (b: bool)
    ensures
        b == is_fatal(step),
{
    match step {
        StartupStep::InitLogging => false,
        _ => true,
    }
}

/// The step that follows `step`, if `step` is not the last one.
pub fn following(step: StartupStep) -> (next: Option<StartupStep>)
    ensures
        next == step_after(step),
{
    match step {
        StartupStep::LoadArtifact => Some(StartupStep::InitLogging),
        StartupStep::InitLogging => Some(StartupStep::LocateProgram),
        StartupStep::LocateProgram => Some(StartupStep::LoadProgram),
        StartupStep::LoadProgram => Some(StartupStep::AttachInterface),
        StartupStep::AttachInterface => Some(StartupStep::OpenCounters),
        StartupStep::OpenCounters => None,
    }
}

/// The event that reports how a startup step ended.
pub open spec fn result_event(succeeded: bool) -> LifecycleEvent {
    if succeeded {
        LifecycleEvent::StepSucceeded
    } else {
        LifecycleEvent::StepFailed
    }
}

/// The state after the startup steps were reported in order, `results[i]`
/// telling whether step `i` succeeded. Behind a fatal failure the later
/// reports change nothing.
pub open spec fn state_after_startup(results: Seq<bool>) -> LifecycleState {
    state_after(
        LifecycleState::Starting(StartupStep::LoadArtifact),
        results.map_values(|succeeded: bool| result_event(succeeded)),
    )
}

/// The monitoring phase is reached exactly when every fatal startup step
/// succeeded; how the initialisation of logging ended makes no difference.
/// After a fatal step that failed the agent stays failed, whatever is
/// reported later, and its exit code is not zero.
pub proof fn lemma_startup_is_fail_fast(results: Seq<bool>)
    requires
        results.len() == 6,
    ensures
        state_after_startup(results) == LifecycleState::Running <==> results[0] && results[2]
            && results[3] && results[4] && results[5],
        state_after_startup(results) != LifecycleState::Running ==> state_after_startup(results)
            is Failed && exit_code_of(state_after_startup(results)) == Some(EXIT_FAILURE),
{
    let events = results.map_values(|succeeded: bool| result_event(succeeded));
    let e5 = events.drop_last();
    let e4 = e5.drop_last();
    let e3 = e4.drop_last();
    let e2 = e3.drop_last();
    let e1 = e2.drop_last();
    let e0 = e1.drop_last();
    let start = LifecycleState::Starting(StartupStep::LoadArtifact);
    assert(e0.len() == 0);
    assert(state_after(start, e0) == start);
    assert(e1.last() == result_event(results[0]));
    assert(e2.last() == result_event(results[1]));
    assert(e3.last() == result_event(results[2]));
    assert(e4.last() == result_event(results[3]));
    assert(e5.last() == result_event(results[4]));
    assert(events.last() == result_event(results[5]));
    assert(state_after(start, e1) == lifecycle_transition(start, e1.last()).0);
    assert(state_after(start, e2) == lifecycle_transition(state_after(start, e1), e2.last()).0);
    assert(state_after(start, e3) == lifecycle_transition(state_after(start, e2), e3.last()).0);
    assert(state_after(start, e4) == lifecycle_transition(state_after(start, e3), e4.last()).0);
    assert(state_after(start, e5) == lifecycle_transition(state_after(start, e4), e5.last()).0);
    assert(state_after(start, events) == lifecycle_transition(
        state_after(start, e5),
        events.last(),
    ).0);
}

/// A shutdown request in the running state stops the agent with exit code
/// zero; in any other state it changes nothing.
pub proof fn lemma_shutdown_only_when_running(state: LifecycleState)
    ensures
        state == LifecycleState::Running ==> exit_code_of(
            lifecycle_transition(state, LifecycleEvent::ShutdownRequested).0,
        ) == Some(0u8),
        state != LifecycleState::Running ==> lifecycle_transition(
            state,
            LifecycleEvent::ShutdownRequested,
        ) == (state, LifecycleAction::Nothing),
{
}

} // verus!
