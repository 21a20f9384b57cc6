//! The built-in leaf filters on stanzas.
use vstd::prelude::*;

use crate::filter::{Filter, Value};
use crate::query::{IqAny, Query};

verus! {

/// Matches message stanzas, extracting nothing.
pub fn message() -> (r: Filter)
    ensures
        r == Filter::IsMessage,
{
    Filter::IsMessage
}

/// Matches IQ stanzas, as a query that can be narrowed to `get` or `set`.
pub fn iq() -> (r: Query<IqAny>)
    ensures
        r.filter == Filter::IsIq,
{
    Query { filter: Filter::IsIq, state: IqAny }
}

/// Matches presence stanzas, extracting nothing.
pub fn presence() -> (r: Filter)
    ensures
        r == Filter::IsPresence,
{
    Filter::IsPresence
}

/// Extracts the optional sender address; never rejects.
pub fn from() -> (r: Filter)
    ensures
        r == Filter::From,
{
    Filter::From
}

/// Extracts the optional recipient address; never rejects.
pub fn to() -> (r: Filter)
    ensures
        r == Filter::To,
{
    Filter::To
}

/// Extracts the sender address; rejects with `item-not-found` when absent.
pub fn require_from() -> (r: Filter)
    ensures
        r == Filter::RequireFrom,
{
    Filter::RequireFrom
}

/// Extracts the recipient address; rejects with `item-not-found` when absent.
pub fn require_to() -> (r: Filter)
    ensures
        r == Filter::RequireTo,
{
    Filter::RequireTo
}

/// Extracts a chat message with `body` whose recipient is the stanza's
/// sender and whose sender is the stanza's recipient; never rejects.
pub fn reply(body: String) -> (r: Filter)
    ensures
        r == Filter::ReplyWith(body),
{
    Filter::ReplyWith(body)
}

/// Extracts a chat message that repeats the best body of a message stanza
/// back to its sender.
pub fn echo() -> (r: Filter)
    ensures
        r == Filter::Echo,
{
    Filter::Echo
}

/// The reply that sends nothing.
pub fn sink() -> (r: Value)
    ensures
        r == Value::Sink,
{
    Value::Sink
}

} // verus!
