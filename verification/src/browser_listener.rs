//! Browser events as Milo's main context receives them from the local
//! socket.

use crate::browser::{BrowserActivity, BrowserCommand, BrowserCommandResult, LocalBrowserMessage};
use vstd::prelude::*;
use vstd::string::StringExecFns;

verus! {

#[derive(Clone, Copy, Debug, PartialEq, Eq, Structural)]
pub enum BrowserActivityEvent {
    Activity(BrowserActivity),
    CommandResult { command: BrowserCommand, result: BrowserCommandResult },
    /// The Firefox connection ended (an explicit message, never the end of
    /// a local stream).
    Unavailable,
}

pub open spec fn spec_event_for(message: LocalBrowserMessage) -> BrowserActivityEvent {
    match message {
        LocalBrowserMessage::Activity { activity } => BrowserActivityEvent::Activity(activity),
        LocalBrowserMessage::TrackingUnavailable => BrowserActivityEvent::Unavailable,
        LocalBrowserMessage::CommandResult { command, result } => BrowserActivityEvent::CommandResult {
            command,
            result,
        },
    }
}

/// The event a local message stands for.
pub fn event_for(message: LocalBrowserMessage) -> (event: BrowserActivityEvent)
    ensures
        event == spec_event_for(message),
{
    match message {
        LocalBrowserMessage::Activity { activity } => BrowserActivityEvent::Activity(activity),
        LocalBrowserMessage::TrackingUnavailable => BrowserActivityEvent::Unavailable,
        LocalBrowserMessage::CommandResult { command, result } => BrowserActivityEvent::CommandResult {
            command,
            result,
        },
    }
}

/// Local messages become events one for one: an activity message is the
/// event of that same activity, a command result keeps its command and
/// result, and only the explicit tracking-unavailable message means the
/// browser is unavailable.
pub proof fn lemma_events_keep_their_message(
    message: LocalBrowserMessage,
    activity: BrowserActivity,
    command: BrowserCommand,
    result: BrowserCommandResult,
)
    ensures
        spec_event_for(LocalBrowserMessage::Activity { activity })
            == BrowserActivityEvent::Activity(activity),
        spec_event_for(LocalBrowserMessage::CommandResult { command, result })
            == (BrowserActivityEvent::CommandResult { command, result }),
        (spec_event_for(message) == BrowserActivityEvent::Unavailable) == (message
            == LocalBrowserMessage::TrackingUnavailable),
{
}

/// Why a command could not be handed to the Firefox native host.
#[derive(Clone, Debug, PartialEq, Eq)]
pub enum BrowserCommandSendError {
    /// No native host is connected.
    Unavailable,
    /// Writing to the local connection failed; the text is the transport's
    /// own description of the failure.
    Transport(String),
}

impl BrowserCommandSendError {
    /// The error's message for the log.
    pub fn message(&self) -> (message: String)
        ensures
            match self {
                BrowserCommandSendError::Unavailable => message@ == "native host is unavailable"@,
                BrowserCommandSendError::Transport(detail) => message@
                    == "local transport failed: "@ + detail@,
            },
    {
        match self {
            BrowserCommandSendError::Unavailable => "native host is unavailable".to_owned(),
            BrowserCommandSendError::Transport(detail) => {
                let mut message = String::from_str("local transport failed: ");
                message.append(detail.as_str());
                message
            },
        }
    }
}

/// The outcome of sending a command on the bridge, given what became of the
/// write: `None` when no connection is attached, else the result of writing
/// the command line. The second component tells whether the connection stays
/// attached: a failed write drops it.
pub fn send_outcome(write: Option<Result<(), String>>) -> (outcome: (
    Result<(), BrowserCommandSendError>,
    bool,
))
    ensures
        outcome == (match write {
            None => (Err(BrowserCommandSendError::Unavailable), false),
            Some(Ok(())) => (Ok(()), true),
            Some(Err(detail)) => (Err(BrowserCommandSendError::Transport(detail)), false),
        }),
{
    match write {
        None => (Err(BrowserCommandSendError::Unavailable), false),
        Some(Ok(())) => (Ok(()), true),
        Some(Err(detail)) => (Err(BrowserCommandSendError::Transport(detail)), false),
    }
}

} // verus!
