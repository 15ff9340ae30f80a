//! Guard-runner decisions: what the inline filtering loop does at each
//! step of its life cycle.
//!
//! The runner itself performs the transport work (binding the in-kernel
//! queue, receiving messages, delivering verdicts); every decision it
//! takes — whether to start, what a message's verdict is, and what a
//! transport failure means under the fail-open policy — is decided here.

use vstd::prelude::*;
use crate::config::PacketGuardConfig;

verus! {

/// What the guard runner is to do for a given configuration.
#[derive(PartialEq, Eq, Structural, Debug)]
pub enum GuardPlan {
    /// The in-kernel queue is absent or disabled: nothing to guard.
    Disabled,
    /// Bind the queue and filter, with the configured failure policy.
    Activate { queue_num: u16, fail_open: bool },
}

/// Decides whether the guard runner starts, from the configuration alone:
/// it activates exactly when an in-kernel queue is configured and enabled.
pub fn guard_plan(config: &PacketGuardConfig) -> (r: GuardPlan)
    ensures
        r == match config.nfqueue {
            Some(q) => if q.enabled {
                GuardPlan::Activate { queue_num: q.queue_num, fail_open: q.fail_open }
            } else {
                GuardPlan::Disabled
            },
            None => GuardPlan::Disabled,
        },
{
    match &config.nfqueue {
        Some(q) => {
            if q.enabled {
                GuardPlan::Activate { queue_num: q.queue_num, fail_open: q.fail_open }
            } else {
                GuardPlan::Disabled
            }
        },
        None => GuardPlan::Disabled,
    }
}

/// The life-cycle state of the guard runner.
#[derive(Clone, Copy, PartialEq, Eq, Structural, Debug)]
pub enum GuardState {
    Idle,
    Bound,
    Running,
    Stopped,
}

/// What the transport reports to the runner.
#[derive(Clone, Copy, PartialEq, Eq, Structural, Debug)]
pub enum GuardEvent {
    BindSucceeded,
    BindFailed,
    RunStarted,
    MessageProcessed,
    RunFailed,
}

/// What the runner does next.
#[derive(Clone, Copy, PartialEq, Eq, Structural, Debug)]
pub enum GuardAction {
    /// Go on with the next life-cycle step.
    Proceed,
    /// Keep receiving messages.
    KeepRunning,
    /// Log a warning and stop filtering; traffic passes by the kernel's
    /// default policy, and the process continues.
    WarnAndStop,
    /// The failure is fatal: surface the error to the process boundary.
    FatalError,
}

/// The runner's transition relation: `Idle` binds to `Bound`, `Bound`
/// starts to `Running`, `Running` stays on each processed message, and a
/// run failure stops the runner — leaving traffic passing with a warning
/// when `fail_open` is set, and fatally otherwise. A bind failure is
/// always fatal, and any event out of place stops the runner fatally.
pub open spec fn spec_guard_step(
    state: GuardState,
    event: GuardEvent,
    fail_open: bool,
) -> (GuardState, GuardAction) {
    match (state, event) {
        (GuardState::Idle, GuardEvent::BindSucceeded) => (GuardState::Bound, GuardAction::Proceed),
        (GuardState::Idle, GuardEvent::BindFailed) => (
            GuardState::Stopped,
            GuardAction::FatalError,
        ),
        (GuardState::Bound, GuardEvent::RunStarted) => (
            GuardState::Running,
            GuardAction::KeepRunning,
        ),
        (GuardState::Running, GuardEvent::MessageProcessed) => (
            GuardState::Running,
            GuardAction::KeepRunning,
        ),
        (GuardState::Running, GuardEvent::RunFailed) => (
            GuardState::Stopped,
            if fail_open {
                GuardAction::WarnAndStop
            } else {
                GuardAction::FatalError
            },
        ),
        (_, _) => (GuardState::Stopped, GuardAction::FatalError),
    }
}

/// Advances the guard runner's life cycle by one event.
///
/// A transport run failure never goes unnoticed: with `fail_open` set the
/// runner warns and stops — the process survives and traffic passes — and
/// without it the failure is fatal, so filtering never degrades silently.
pub fn guard_step(state: GuardState, event: GuardEvent, fail_open: bool) -> (r: (
    GuardState,
    GuardAction,
))
    ensures
        r == spec_guard_step(state, event, fail_open),
        state == GuardState::Running && event == GuardEvent::RunFailed && fail_open ==> r.1
            == GuardAction::WarnAndStop,
        state == GuardState::Running && event == GuardEvent::RunFailed && !fail_open ==> r.1
            == GuardAction::FatalError,
{
    match (state, event) {
        (GuardState::Idle, GuardEvent::BindSucceeded) => (GuardState::Bound, GuardAction::Proceed),
        (GuardState::Bound, GuardEvent::RunStarted) => (
            GuardState::Running,
            GuardAction::KeepRunning,
        ),
        (GuardState::Running, GuardEvent::MessageProcessed) => (
            GuardState::Running,
            GuardAction::KeepRunning,
        ),
        (GuardState::Running, GuardEvent::RunFailed) => (
            GuardState::Stopped,
            if fail_open {
                GuardAction::WarnAndStop
            } else {
                GuardAction::FatalError
            },
        ),
        (_, _) => (GuardState::Stopped, GuardAction::FatalError),
    }
}

} // verus!
