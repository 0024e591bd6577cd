//! The graceful-termination protocol, as a per-invocation state machine.
//!
//! The protocol alternates OS work (window discovery, save-signal injection,
//! grace-period waits, handle acquisition, the forced kill, handle release)
//! with decisions. The decisions live here: `start` and `step` map the current
//! state and the outcome of the last OS action to the next state and the next
//! action. The caller performs each action against the OS and feeds the
//! outcome back as an event; no OS surface is touched from this module.
//!
//! With saving applicable, the intended run is: search for a window; if one is
//! found, inject a save signal and wait out the long grace period; acquire a
//! termination-capable handle (failure aborts the protocol); if a save was
//! attempted, inject the save signal again for each remaining configured
//! attempt, each followed by the short grace period; issue the forced kill;
//! release the handle unconditionally; report the outcome.

use vstd::prelude::*;

verus! {

/// Grace period, in seconds, after the first save-signal injection.
pub const FIRST_GRACE_SECS: u64 = 2;

/// Grace period, in seconds, after each repeat save-signal injection.
pub const RETRY_GRACE_SECS: u64 = 1;

/// Why a termination attempt failed. A process that is already gone is not a
/// failure: the protocol is then never started (the attempt is a benign
/// no-op), and a window that cannot be found only skips the save attempt.
#[derive(Clone, Copy, Debug, PartialEq, Eq, Structural)]
pub enum TerminateError {
    /// A termination-capable handle could not be acquired.
    PermissionDenied,
    /// The forced termination was refused by the OS.
    KillFailed,
}

/// Tunable knobs of the protocol: the total number of save-signal injections
/// made when a window was found. The first injection is followed by the long
/// grace period, each further one by the short grace period.
#[derive(Clone, Copy, Debug, PartialEq, Eq, Structural)]
pub struct ProtocolConfig {
    pub save_attempts: u32,
}

impl Default for ProtocolConfig {
    /// Two save attempts: the long-grace one before handle acquisition and
    /// one short-grace repeat just before the kill.
    fn default() -> (r: ProtocolConfig)
        ensures
            r.save_attempts == 2,
    {
        ProtocolConfig { save_attempts: 2 }
    }
}

/// The state of one protocol invocation.
#[derive(Clone, Copy, Debug, PartialEq, Eq, Structural)]
pub enum ProtoState {
    /// Window discovery is running for the process's name.
    FindingWindow,
    /// The first save signal was injected; the long grace period is running.
    WaitingFirstGrace,
    /// A termination-capable handle is being acquired; records whether a save
    /// signal was injected earlier.
    OpeningHandle { save_attempted: bool },
    /// A repeat save signal was injected; the short grace period is running.
    /// `attempts_done` counts all injections made so far, the first included.
    WaitingRetryGrace { attempts_done: u32 },
    /// The forced termination is being issued.
    Killing,
    /// The handle is being released; records whether the kill succeeded.
    Closing { killed: bool },
    /// The protocol finished and the process was terminated.
    Succeeded,
    /// The protocol finished without terminating the process.
    Failed(TerminateError),
}

/// What the caller must do against the OS next.
#[derive(Clone, Copy, Debug, PartialEq, Eq, Structural)]
pub enum ProtoAction {
    /// Run window discovery for the process's name.
    SearchWindow,
    /// Inject the platform's save key combination and wait out this grace
    /// period.
    InjectSaveAndWait { grace_secs: u64 },
    /// Acquire a termination-capable handle to the process.
    OpenHandle,
    /// Issue the forced termination through the handle.
    Kill,
    /// Release the handle.
    CloseHandle,
    /// Nothing: the protocol is over.
    Finished,
}

/// The outcome of the last action, fed back by the caller.
#[derive(Clone, Copy, Debug, PartialEq, Eq, Structural)]
pub enum ProtoEvent {
    /// Window discovery ended; `found` says whether a window turned up.
    WindowSearched { found: bool },
    /// The grace period elapsed.
    GraceElapsed,
    /// Handle acquisition ended; `ok` says whether a handle was obtained.
    HandleOpened { ok: bool },
    /// The forced termination was issued; `ok` says whether the OS accepted
    /// it.
    KillIssued { ok: bool },
    /// The handle was released.
    HandleClosed,
}

/// The initial state and first action: with saving applicable the protocol
/// opens with window discovery, otherwise it goes straight for the handle.
pub open spec fn spec_start(should_save: bool) -> (ProtoState, ProtoAction) {
    if should_save {
        (ProtoState::FindingWindow, ProtoAction::SearchWindow)
    } else {
        (ProtoState::OpeningHandle { save_attempted: false }, ProtoAction::OpenHandle)
    }
}

/// The event a state awaits. Terminal states await nothing.
pub open spec fn spec_event_matches(s: ProtoState, e: ProtoEvent) -> bool {
    match s {
        ProtoState::FindingWindow => e is WindowSearched,
        ProtoState::WaitingFirstGrace => e is GraceElapsed,
        ProtoState::OpeningHandle { .. } => e is HandleOpened,
        ProtoState::WaitingRetryGrace { .. } => e is GraceElapsed,
        ProtoState::Killing => e is KillIssued,
        ProtoState::Closing { .. } => e is HandleClosed,
        ProtoState::Succeeded => false,
        ProtoState::Failed(_) => false,
    }
}

/// The transition relation of the protocol.
pub open spec fn spec_step(cfg: ProtocolConfig, s: ProtoState, e: ProtoEvent) -> (
    ProtoState,
    ProtoAction,
)
    recommends
        spec_event_matches(s, e),
{
    match (s, e) {
        (ProtoState::FindingWindow, ProtoEvent::WindowSearched { found }) => if found {
            (
                ProtoState::WaitingFirstGrace,
                ProtoAction::InjectSaveAndWait { grace_secs: FIRST_GRACE_SECS },
            )
        } else {
            // No window: the save attempt is skipped, termination proceeds.
            (ProtoState::OpeningHandle { save_attempted: false }, ProtoAction::OpenHandle)
        },
        (ProtoState::WaitingFirstGrace, ProtoEvent::GraceElapsed) => (
            ProtoState::OpeningHandle { save_attempted: true },
            ProtoAction::OpenHandle,
        ),
        (ProtoState::OpeningHandle { save_attempted }, ProtoEvent::HandleOpened { ok }) => if !ok {
            (ProtoState::Failed(TerminateError::PermissionDenied), ProtoAction::Finished)
        } else if save_attempted && cfg.save_attempts > 1 {
            (
                ProtoState::WaitingRetryGrace { attempts_done: 2 },
                ProtoAction::InjectSaveAndWait { grace_secs: RETRY_GRACE_SECS },
            )
        } else {
            (ProtoState::Killing, ProtoAction::Kill)
        },
        (ProtoState::WaitingRetryGrace { attempts_done }, ProtoEvent::GraceElapsed) => if attempts_done
            < cfg.save_attempts {
            (
                ProtoState::WaitingRetryGrace { attempts_done: (attempts_done + 1) as u32 },
                ProtoAction::InjectSaveAndWait { grace_secs: RETRY_GRACE_SECS },
            )
        } else {
            (ProtoState::Killing, ProtoAction::Kill)
        },
        (ProtoState::Killing, ProtoEvent::KillIssued { ok }) => (
            ProtoState::Closing { killed: ok },
            ProtoAction::CloseHandle,
        ),
        (ProtoState::Closing { killed }, ProtoEvent::HandleClosed) => if killed {
            (ProtoState::Succeeded, ProtoAction::Finished)
        } else {
            (ProtoState::Failed(TerminateError::KillFailed), ProtoAction::Finished)
        },
        _ => (s, ProtoAction::Finished),
    }
}

/// Begin a protocol invocation.
pub fn start(should_save: bool) -> (r: (ProtoState, ProtoAction))
    ensures
        r == spec_start(should_save),
{
    if should_save {
        (ProtoState::FindingWindow, ProtoAction::SearchWindow)
    } else {
        (ProtoState::OpeningHandle { save_attempted: false }, ProtoAction::OpenHandle)
    }
}

/// The event a state awaits. Terminal states await nothing.
pub fn event_matches(s: ProtoState, e: ProtoEvent) -> (r: bool)
    ensures
        r == spec_event_matches(s, e),
{
    match s {
        ProtoState::FindingWindow => matches!(e, ProtoEvent::WindowSearched { .. }),
        ProtoState::WaitingFirstGrace => matches!(e, ProtoEvent::GraceElapsed),
        ProtoState::OpeningHandle { .. } => matches!(e, ProtoEvent::HandleOpened { .. }),
        ProtoState::WaitingRetryGrace { .. } => matches!(e, ProtoEvent::GraceElapsed),
        ProtoState::Killing => matches!(e, ProtoEvent::KillIssued { .. }),
        ProtoState::Closing { .. } => matches!(e, ProtoEvent::HandleClosed),
        ProtoState::Succeeded => false,
        ProtoState::Failed(_) => false,
    }
}

/// Take one protocol step: from the current state and the outcome of the last
/// action to the next state and the next action.
pub fn step(cfg: &ProtocolConfig, s: ProtoState, e: ProtoEvent) -> (r: (ProtoState, ProtoAction))
    requires
        spec_event_matches(s, e),
    ensures
        r == spec_step(*cfg, s, e),
{
    match (s, e) {
        (ProtoState::FindingWindow, ProtoEvent::WindowSearched { found }) => if found {
            (
                ProtoState::WaitingFirstGrace,
                ProtoAction::InjectSaveAndWait { grace_secs: FIRST_GRACE_SECS },
            )
        } else {
            (ProtoState::OpeningHandle { save_attempted: false }, ProtoAction::OpenHandle)
        },
        (ProtoState::WaitingFirstGrace, ProtoEvent::GraceElapsed) => (
            ProtoState::OpeningHandle { save_attempted: true },
            ProtoAction::OpenHandle,
        ),
        (ProtoState::OpeningHandle { save_attempted }, ProtoEvent::HandleOpened { ok }) => if !ok {
            (ProtoState::Failed(TerminateError::PermissionDenied), ProtoAction::Finished)
        } else if save_attempted && cfg.save_attempts > 1 {
            (
                ProtoState::WaitingRetryGrace { attempts_done: 2 },
                ProtoAction::InjectSaveAndWait { grace_secs: RETRY_GRACE_SECS },
            )
        } else {
            (ProtoState::Killing, ProtoAction::Kill)
        },
        (ProtoState::WaitingRetryGrace { attempts_done }, ProtoEvent::GraceElapsed) => if attempts_done
            < cfg.save_attempts {
            (
                ProtoState::WaitingRetryGrace { attempts_done: attempts_done + 1 },
                ProtoAction::InjectSaveAndWait { grace_secs: RETRY_GRACE_SECS },
            )
        } else {
            (ProtoState::Killing, ProtoAction::Kill)
        },
        (ProtoState::Killing, ProtoEvent::KillIssued { ok }) => (
            ProtoState::Closing { killed: ok },
            ProtoAction::CloseHandle,
        ),
        (ProtoState::Closing { killed }, ProtoEvent::HandleClosed) => if killed {
            (ProtoState::Succeeded, ProtoAction::Finished)
        } else {
            (ProtoState::Failed(TerminateError::KillFailed), ProtoAction::Finished)
        },
        _ => (s, ProtoAction::Finished),
    }
}

/// A terminal state: the protocol is over.
pub open spec fn spec_is_done(s: ProtoState) -> bool {
    s is Succeeded || s is Failed
}

/// An upper bound on the steps left before the protocol finishes.
pub open spec fn spec_measure(cfg: ProtocolConfig, s: ProtoState) -> int {
    match s {
        ProtoState::FindingWindow => 2 * cfg.save_attempts + 6,
        ProtoState::WaitingFirstGrace => 2 * cfg.save_attempts + 5,
        ProtoState::OpeningHandle { .. } => 2 * cfg.save_attempts + 4,
        ProtoState::WaitingRetryGrace { attempts_done } => if attempts_done <= cfg.save_attempts {
            2 * (cfg.save_attempts - attempts_done) + 3
        } else {
            3
        },
        ProtoState::Killing => 2,
        ProtoState::Closing { .. } => 1,
        ProtoState::Succeeded => 0,
        ProtoState::Failed(_) => 0,
    }
}

/// Every protocol run finishes: each step strictly decreases a non-negative
/// measure, so a run makes only finitely many steps before reaching a
/// terminal state, whatever the events are; and the step that announces no
/// further action is exactly the one that reaches a terminal state.
pub proof fn lemma_step_progress(cfg: ProtocolConfig, s: ProtoState, e: ProtoEvent)
    requires
        spec_event_matches(s, e),
    ensures
        0 <= spec_measure(cfg, spec_step(cfg, s, e).0) < spec_measure(cfg, s),
        spec_is_done(spec_step(cfg, s, e).0) <==> spec_step(cfg, s, e).1 is Finished,
{
}

/// The handle is released whatever the kill's outcome was: after the kill is
/// issued, the one next action is always to close the handle.
pub proof fn lemma_handle_always_released(cfg: ProtocolConfig, ok: bool)
    ensures
        spec_step(cfg, ProtoState::Killing, ProtoEvent::KillIssued { ok }).1
            == ProtoAction::CloseHandle,
{
}

/// A failed handle acquisition aborts the protocol at once with
/// `PermissionDenied`: no kill is attempted and nothing further happens.
pub proof fn lemma_open_failure_aborts(cfg: ProtocolConfig, save_attempted: bool)
    ensures
        spec_step(
            cfg,
            ProtoState::OpeningHandle { save_attempted },
            ProtoEvent::HandleOpened { ok: false },
        ) == (ProtoState::Failed(TerminateError::PermissionDenied), ProtoAction::Finished),
{
}

/// A missing window is not an error: the save attempt is skipped and the
/// protocol proceeds to handle acquisition.
pub proof fn lemma_window_not_found_proceeds(cfg: ProtocolConfig)
    ensures
        spec_step(cfg, ProtoState::FindingWindow, ProtoEvent::WindowSearched { found: false }) == (
            ProtoState::OpeningHandle { save_attempted: false },
            ProtoAction::OpenHandle,
        ),
{
}

} // verus!
