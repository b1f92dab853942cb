//! Error taxonomy of the subscription engine.

use vstd::prelude::*;

verus! {

/// Every failure a manager-level operation can report.
#[derive(Clone, Copy, Debug, PartialEq, Eq, Structural)]
pub enum Error {
    /// An operation was attempted before a successful `init`.
    NotInitialized,
    /// An event name does not resolve to a declared event.
    UnknownEvent,
    /// An event id is out of bounds.
    IndexOutOfRange,
    /// A subscription for the event name already exists.
    AlreadyLogging,
    /// A stop was requested for an event name with no live subscription.
    NotSubscribed,
    /// One or more cancellation sends failed during a bulk stop.
    StopAllFailed,
    /// The background worker failed to initialize or hand its handle off.
    ReactorStartup,
    /// A raw text value could not be coerced to the declared parameter type.
    TypeCoercion,
    /// A single cancellation signal could not be delivered.
    SendFailed,
    /// A remote call failed; never retried by this layer.
    Transport,
    /// The remote node could not create the server-side filter.
    FilterCreation,
}

/// The one-line description of an error value.
pub open spec fn error_text(e: Error) -> Seq<char> {
    match e {
        Error::NotInitialized => "not initialized"@,
        Error::UnknownEvent => "unknown event"@,
        Error::IndexOutOfRange => "event id out of range"@,
        Error::AlreadyLogging => "already logging"@,
        Error::NotSubscribed => "not subscribed"@,
        Error::StopAllFailed => "stop all failed"@,
        Error::ReactorStartup => "reactor startup failed"@,
        Error::TypeCoercion => "type coercion failed"@,
        Error::SendFailed => "cancellation send failed"@,
        Error::Transport => "transport failure"@,
        Error::FilterCreation => "filter creation failed"@,
    }
}

/// Renders an error as its one-line description.
pub fn display_err(e: &Error) -> (r: String)
    ensures
        r@ == error_text(*e),
{
    match e {
        Error::NotInitialized => String::from_str("not initialized"),
        Error::UnknownEvent => String::from_str("unknown event"),
        Error::IndexOutOfRange => String::from_str("event id out of range"),
        Error::AlreadyLogging => String::from_str("already logging"),
        Error::NotSubscribed => String::from_str("not subscribed"),
        Error::StopAllFailed => String::from_str("stop all failed"),
        Error::ReactorStartup => String::from_str("reactor startup failed"),
        Error::TypeCoercion => String::from_str("type coercion failed"),
        Error::SendFailed => String::from_str("cancellation send failed"),
        Error::Transport => String::from_str("transport failure"),
        Error::FilterCreation => String::from_str("filter creation failed"),
    }
}

} // verus!
