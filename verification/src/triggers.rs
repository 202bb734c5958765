//! Event sources ("triggers"): each variant owns a background task, run by
//! the composing layer, that produces events and stops on the shutdown
//! broadcast. The library holds each variant's configuration, validation and
//! event construction; the wire protocols are external collaborators.

pub mod event;
pub mod gmail_watch_trigger;
pub mod poll_trigger;
pub mod telegram_bot_trigger;

pub use event::TEvent;
pub use gmail_watch_trigger::GmailWatchTrigger;
pub use poll_trigger::PollTrigger;
pub use telegram_bot_trigger::TelegramBotTrigger;

use crate::utils::google_auth::AuthError;
use vstd::prelude::*;

verus! {

/// An error that can occur within a trigger.
#[derive(Debug)]
pub enum TriggerError {
    /// The trigger failed to start.
    ActivationError,
    /// The trigger failed to authenticate.
    AuthError(AuthError),
}

/// The lifecycle of a trigger's background task. Every variant shares it:
/// constructed idle, launched once into its running loop, stopped
/// cooperatively.
#[derive(Debug, Clone, Copy, PartialEq, Eq, Structural)]
pub enum TriggerState {
    /// Constructed, not launched.
    Idle,
    /// The background task is looping over its select point.
    Running,
    /// The task has returned; it produces no further events.
    Stopped,
}

/// What a trigger's running loop observed at its select point.
#[derive(Debug, Clone, Copy, PartialEq, Eq, Structural)]
pub enum TriggerWakeup {
    /// The shared shutdown broadcast arrived.
    Shutdown,
    /// The event channel's receiving end was dropped.
    SinkClosed,
    /// The trigger's own source is ready (a tick, a poll result, a message).
    SourceReady,
}

/// The uniform trigger state machine: launching an idle trigger starts its
/// loop; a running loop stops exactly on the shutdown broadcast or on
/// finding the event channel closed, and keeps running on its own source's
/// readiness (emitting events); a stopped trigger stays stopped. So once the
/// shutdown broadcast is delivered, every launched trigger's next select
/// point ends its task.
pub fn trigger_transition(state: TriggerState, wakeup: TriggerWakeup) -> (r: TriggerState)
    ensures
        r == (match state {
            TriggerState::Idle => TriggerState::Idle,
            TriggerState::Running => match wakeup {
                TriggerWakeup::Shutdown => TriggerState::Stopped,
                TriggerWakeup::SinkClosed => TriggerState::Stopped,
                TriggerWakeup::SourceReady => TriggerState::Running,
            },
            TriggerState::Stopped => TriggerState::Stopped,
        }),
{
    match state {
        TriggerState::Idle => TriggerState::Idle,
        TriggerState::Running => match wakeup {
            TriggerWakeup::Shutdown => TriggerState::Stopped,
            TriggerWakeup::SinkClosed => TriggerState::Stopped,
            TriggerWakeup::SourceReady => TriggerState::Running,
        },
        TriggerState::Stopped => TriggerState::Stopped,
    }
}

} // verus!
