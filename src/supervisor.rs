//! The life cycle of a build session: its states, the events that move it,
//! and the action that each step asks of the runner.

use vstd::prelude::*;

use crate::process::SessionError;

verus! {

#[derive(Clone, Copy, Debug, PartialEq, Eq, Structural)]
pub enum SessionState {
    Created,
    SettingsWritten,
    Spawned,
    Running,
    /// The interrupt won the race; the child is being killed.
    Terminating,
    /// The child exited on its own with this status code.
    Completed(Option<i32>),
    OutputLoaded,
    Cancelled,
    Failed(SessionError),
}

/// What the runner observed.
#[derive(Clone, Copy, Debug, PartialEq, Eq, Structural)]
pub enum SessionEvent {
    /// The session directory, the settings file and the log file were made.
    SettingsStored,
    /// One of them could not be made.
    StorageFailed,
    ChildSpawned,
    SpawnFailed,
    /// The child's standard output is being drained and the interrupt awaited.
    OutputAttached,
    OutputUnavailable,
    /// Draining finished and the child exited with this status code.
    Exited(Option<i32>),
    Interrupted,
    /// The killed child is confirmed gone.
    KillConfirmed,
}

/// What the runner is to do next.
#[derive(Clone, Copy, Debug, PartialEq, Eq, Structural)]
pub enum SessionAction {
    Spawn,
    /// Drain the output and race the child's exit against the interrupt.
    Supervise,
    KillChild,
    LoadReport,
    /// Hand the outcome to the caller.
    Report,
    Nothing,
}

pub open spec fn is_terminal(s: SessionState) -> bool {
    s is OutputLoaded || s is Cancelled || s is Failed
}

pub open spec fn spec_error(s: SessionState) -> Option<SessionError> {
    match s {
        SessionState::Failed(e) => Some(e),
        SessionState::Cancelled => Some(SessionError::Cancelled),
        _ => None,
    }
}

impl SessionState {
    /// The error that a failed or cancelled session ends with.
    pub fn error(&self) -> (r: Option<SessionError>)
        ensures
            r == spec_error(*self),
    {
        match self {
            SessionState::Failed(e) => Some(*e),
            SessionState::Cancelled => Some(SessionError::Cancelled),
            _ => None,
        }
    }
}

/// One step of the session: the next state and the action it asks for.
/// Events that do not fit the state change nothing.
pub open spec fn step(s: SessionState, e: SessionEvent) -> (SessionState, SessionAction) {
    match (s, e) {
        (SessionState::Created, SessionEvent::SettingsStored) => (
            SessionState::SettingsWritten,
            SessionAction::Spawn,
        ),
        (SessionState::Created, SessionEvent::StorageFailed) => (
            SessionState::Failed(SessionError::Io),
            SessionAction::Report,
        ),
        (SessionState::SettingsWritten, SessionEvent::ChildSpawned) => (
            SessionState::Spawned,
            SessionAction::Supervise,
        ),
        (SessionState::SettingsWritten, SessionEvent::SpawnFailed) => (
            SessionState::Failed(SessionError::Spawn),
            SessionAction::Report,
        ),
        (SessionState::Spawned, SessionEvent::OutputAttached) => (
            SessionState::Running,
            SessionAction::Nothing,
        ),
        (SessionState::Spawned, SessionEvent::OutputUnavailable) => (
            SessionState::Failed(SessionError::Io),
            SessionAction::KillChild,
        ),
        (SessionState::Running, SessionEvent::Exited(code)) => (
            SessionState::Completed(code),
            SessionAction::LoadReport,
        ),
        (SessionState::Running, SessionEvent::Interrupted) => (
            SessionState::Terminating,
            SessionAction::KillChild,
        ),
        (SessionState::Terminating, SessionEvent::KillConfirmed) => (
            SessionState::Cancelled,
            SessionAction::Report,
        ),
        _ => (s, SessionAction::Nothing),
    }
}

/// The error, if any, of a session whose child exited with `exit_code` and
/// whose completion report was or was not read: the report comes first, then
/// the status code.
pub open spec fn load_error(report_present: bool, exit_code: Option<i32>) -> Option<SessionError> {
    if !report_present {
        Some(SessionError::OutputLoad)
    } else if exit_code != Some(0i32) {
        Some(SessionError::ExitFailure(exit_code))
    } else {
        None
    }
}

/// The state after the completion report of a completed session was or was
/// not read.
pub open spec fn conclude_state(s: SessionState, report_present: bool) -> SessionState {
    match s {
        SessionState::Completed(code) => match load_error(report_present, code) {
            Some(e) => SessionState::Failed(e),
            None => SessionState::OutputLoaded,
        },
        _ => s,
    }
}

/// The state after the events `es`, and the actions asked for on the way.
pub open spec fn run(s: SessionState, es: Seq<SessionEvent>) -> (SessionState, Seq<SessionAction>)
    decreases es.len(),
{
    if es.len() == 0 {
        (s, Seq::empty())
    } else {
        let (s1, a) = step(s, es[0]);
        let (s2, rest) = run(s1, es.drop_first());
        (s2, seq![a] + rest)
    }
}

/// The next state and action of `s` on `e`.
pub fn next(s: SessionState, e: SessionEvent) -> (r: (SessionState, SessionAction))
    ensures
        r == step(s, e),
{
    match (s, e) {
        (SessionState::Created, SessionEvent::SettingsStored) => (
            SessionState::SettingsWritten,
            SessionAction::Spawn,
        ),
        (SessionState::Created, SessionEvent::StorageFailed) => (
            SessionState::Failed(SessionError::Io),
            SessionAction::Report,
        ),
        (SessionState::SettingsWritten, SessionEvent::ChildSpawned) => (
            SessionState::Spawned,
            SessionAction::Supervise,
        ),
        (SessionState::SettingsWritten, SessionEvent::SpawnFailed) => (
            SessionState::Failed(SessionError::Spawn),
            SessionAction::Report,
        ),
        (SessionState::Spawned, SessionEvent::OutputAttached) => (
            SessionState::Running,
            SessionAction::Nothing,
        ),
        (SessionState::Spawned, SessionEvent::OutputUnavailable) => (
            SessionState::Failed(SessionError::Io),
            SessionAction::KillChild,
        ),
        (SessionState::Running, SessionEvent::Exited(code)) => (
            SessionState::Completed(code),
            SessionAction::LoadReport,
        ),
        (SessionState::Running, SessionEvent::Interrupted) => (
            SessionState::Terminating,
            SessionAction::KillChild,
        ),
        (SessionState::Terminating, SessionEvent::KillConfirmed) => (
            SessionState::Cancelled,
            SessionAction::Report,
        ),
        _ => (s, SessionAction::Nothing),
    }
}

/// No event moves a session out of a terminal state, and none asks for an
/// action there.
pub proof fn lemma_terminal_absorbing(s: SessionState, e: SessionEvent)
    requires
        is_terminal(s),
    ensures
        step(s, e) == (s, SessionAction::Nothing),
{
}

proof fn lemma_run_after_interrupt(s: SessionState, es: Seq<SessionEvent>)
    requires
        s is Terminating || s is Cancelled,
    ensures
        run(s, es).0 is Terminating || run(s, es).0 is Cancelled,
        forall|i: int|
            0 <= i < run(s, es).1.len() ==> #[trigger] run(s, es).1[i] != SessionAction::LoadReport,
        (s is Cancelled || es.contains(SessionEvent::KillConfirmed)) ==> run(s, es).0 is Cancelled,
        run(s, es).1.len() == es.len(),
    decreases es.len(),
{
    if es.len() > 0 {
        let s1 = step(s, es[0]).0;
        lemma_run_after_interrupt(s1, es.drop_first());
        let rest = run(s1, es.drop_first()).1;
        assert(run(s, es).1 == seq![step(s, es[0]).1] + rest);
        if es.contains(SessionEvent::KillConfirmed) && es[0] != SessionEvent::KillConfirmed {
            let k = choose|k: int| 0 <= k < es.len() && es[k] == SessionEvent::KillConfirmed;
            assert(es.drop_first()[k - 1] == SessionEvent::KillConfirmed);
        }
    }
}

/// An interrupt that arrives while the child runs, before it exits, ends
/// the session as `Cancelled` once the kill is confirmed, whatever else
/// happens: the report is never loaded, the session never counts as
/// completed, and the first action is to kill the child.
pub proof fn lemma_interrupt_cancels(es: Seq<SessionEvent>)
    ensures
        run(SessionState::Running, seq![SessionEvent::Interrupted] + es).1[0]
            == SessionAction::KillChild,
        forall|i: int|
            0 <= i < run(SessionState::Running, seq![SessionEvent::Interrupted] + es).1.len()
                ==> #[trigger] run(SessionState::Running, seq![SessionEvent::Interrupted] + es).1[i]
                != SessionAction::LoadReport,
        !(run(SessionState::Running, seq![SessionEvent::Interrupted] + es).0 is Completed),
        !(run(SessionState::Running, seq![SessionEvent::Interrupted] + es).0 is OutputLoaded),
        es.contains(SessionEvent::KillConfirmed) ==> run(
            SessionState::Running,
            seq![SessionEvent::Interrupted] + es,
        ).0 == SessionState::Cancelled,
{
    let all = seq![SessionEvent::Interrupted] + es;
    assert(all[0] == SessionEvent::Interrupted);
    assert(all.drop_first() =~= es);
    lemma_run_after_interrupt(SessionState::Terminating, es);
    let rest = run(SessionState::Terminating, es).1;
    assert(run(SessionState::Running, all).1 == seq![SessionAction::KillChild] + rest);
}

/// A child that exits, cleanly or not, without leaving a readable completion
/// report fails the session with `OutputLoad`; it never counts as a success.
pub proof fn lemma_missing_report_fails(code: Option<i32>)
    ensures
        conclude_state(SessionState::Completed(code), false) == SessionState::Failed(
            SessionError::OutputLoad,
        ),
{
}

/// A completed session succeeds exactly when its report was read and its
/// child exited with status 0: either signal alone is not enough.
pub proof fn lemma_success_needs_both(code: Option<i32>, report_present: bool)
    ensures
        conclude_state(SessionState::Completed(code), report_present) == SessionState::OutputLoaded
            <==> (report_present && code == Some(0i32)),
        is_terminal(conclude_state(SessionState::Completed(code), report_present)),
{
}

} // verus!
