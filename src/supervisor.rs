use vstd::prelude::*;

verus! {

/// The life of the forwarding process.
#[derive(Clone, Copy, PartialEq, Eq, Structural, Debug)]
pub enum SupervisorState {
    Idle,
    Starting,
    Running,
    Terminating,
    Exited,
}

/// What happens to the forwarding process, as seen by the supervisor.
#[derive(Clone, Copy, PartialEq, Eq, Structural, Debug)]
pub enum SupervisorEvent {
    /// The choices are made and saved: forwarding may start.
    Start,
    /// The forwarding process was started.
    Spawned,
    /// The forwarding process could not be started.
    SpawnFailed,
    /// The user sent an interrupt.
    Interrupt,
    /// The forwarding process was killed and reaped.
    Reaped,
    /// The forwarding process ended on its own.
    ChildExited,
}

/// What the supervisor asks to be done next.
#[derive(Clone, Copy, PartialEq, Eq, Structural, Debug)]
pub enum SupervisorAction {
    /// Start the forwarding process.
    Spawn,
    /// Kill the forwarding process and wait for it to end.
    KillAndWait,
    /// Report that forwarding ended, and let the run end with success.
    AnnounceTermination,
    /// Let the run end with success: the forwarding process ended on its own.
    Finish,
    /// Let the run end with the failure to start the forwarding process.
    ReportFailure,
    /// Nothing.
    Nothing,
}

/// The state and action that follow `event` in state `state`.
pub open spec fn next(state: SupervisorState, event: SupervisorEvent) -> (SupervisorState, SupervisorAction) {
    match (state, event) {
        (SupervisorState::Idle, SupervisorEvent::Start) => (SupervisorState::Starting, SupervisorAction::Spawn),
        (SupervisorState::Starting, SupervisorEvent::Spawned) => (SupervisorState::Running, SupervisorAction::Nothing),
        (SupervisorState::Starting, SupervisorEvent::SpawnFailed) => (
            SupervisorState::Exited,
            SupervisorAction::ReportFailure,
        ),
        (SupervisorState::Running, SupervisorEvent::Interrupt) => (
            SupervisorState::Terminating,
            SupervisorAction::KillAndWait,
        ),
        (SupervisorState::Running, SupervisorEvent::ChildExited) => (SupervisorState::Exited, SupervisorAction::Finish),
        (SupervisorState::Terminating, SupervisorEvent::Reaped) => (
            SupervisorState::Exited,
            SupervisorAction::AnnounceTermination,
        ),
        _ => (state, SupervisorAction::Nothing),
    }
}

/// The state reached after `events` from `state`, and how many times the
/// forwarding process was asked to be killed on the way.
pub open spec fn run(state: SupervisorState, events: Seq<SupervisorEvent>) -> (SupervisorState, nat)
    decreases events.len(),
{
    if events.len() == 0 {
        (state, 0)
    } else {
        let (s, a) = next(state, events[0]);
        let (last, kills) = run(s, events.drop_first());
        (last, kills + if a == SupervisorAction::KillAndWait { 1nat } else { 0nat })
    }
}

/// One transition of the supervisor.
pub fn step(state: SupervisorState, event: SupervisorEvent) -> (r: (SupervisorState, SupervisorAction))
    ensures
        r == next(state, event),
{
    match (state, event) {
        (SupervisorState::Idle, SupervisorEvent::Start) => (SupervisorState::Starting, SupervisorAction::Spawn),
        (SupervisorState::Starting, SupervisorEvent::Spawned) => (SupervisorState::Running, SupervisorAction::Nothing),
        (SupervisorState::Starting, SupervisorEvent::SpawnFailed) => (
            SupervisorState::Exited,
            SupervisorAction::ReportFailure,
        ),
        (SupervisorState::Running, SupervisorEvent::Interrupt) => (
            SupervisorState::Terminating,
            SupervisorAction::KillAndWait,
        ),
        (SupervisorState::Running, SupervisorEvent::ChildExited) => (SupervisorState::Exited, SupervisorAction::Finish),
        (SupervisorState::Terminating, SupervisorEvent::Reaped) => (
            SupervisorState::Exited,
            SupervisorAction::AnnounceTermination,
        ),
        _ => (state, SupervisorAction::Nothing),
    }
}

/// Whether the run is over: the main loop stops waiting in this state.
pub fn is_finished(state: SupervisorState) -> (r: bool)
    ensures
        r == (state == SupervisorState::Exited),
{
    state == SupervisorState::Exited
}

/// Once the forwarding process is being terminated, or the run is over, no
/// further event asks for a kill, and the supervisor never runs again.
pub proof fn lemma_no_kill_after_termination(state: SupervisorState, events: Seq<SupervisorEvent>)
    requires
        state == SupervisorState::Terminating || state == SupervisorState::Exited,
    ensures
        run(state, events).1 == 0,
        run(state, events).0 == SupervisorState::Terminating || run(state, events).0
            == SupervisorState::Exited,
    decreases events.len(),
{
    if events.len() > 0 {
        lemma_no_kill_after_termination(next(state, events[0]).0, events.drop_first());
    }
}

/// Whatever events arrive, interrupts included, the forwarding process is
/// asked to be killed at most once.
pub proof fn lemma_at_most_one_kill(state: SupervisorState, events: Seq<SupervisorEvent>)
    ensures
        run(state, events).1 <= 1,
    decreases events.len(),
{
    if events.len() > 0 {
        let (s, a) = next(state, events[0]);
        if a == SupervisorAction::KillAndWait {
            lemma_no_kill_after_termination(s, events.drop_first());
        } else {
            lemma_at_most_one_kill(s, events.drop_first());
        }
    }
}

/// An interrupt while forwarding kills the process once and, once it is
/// reaped, ends the run with the termination notice; a second interrupt right
/// after the first asks for nothing.
pub proof fn lemma_interrupt_kills_once()
    ensures
        next(SupervisorState::Running, SupervisorEvent::Interrupt) == (
            SupervisorState::Terminating,
            SupervisorAction::KillAndWait,
        ),
        next(SupervisorState::Terminating, SupervisorEvent::Interrupt) == (
            SupervisorState::Terminating,
            SupervisorAction::Nothing,
        ),
        next(SupervisorState::Terminating, SupervisorEvent::Reaped) == (
            SupervisorState::Exited,
            SupervisorAction::AnnounceTermination,
        ),
        next(SupervisorState::Exited, SupervisorEvent::Interrupt) == (
            SupervisorState::Exited,
            SupervisorAction::Nothing,
        ),
{
}

} // verus!
