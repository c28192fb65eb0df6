//! Route-change notifications: which inbound kernel messages become events,
//! and what a subscriber does with each thing its channel hands it.
use vstd::prelude::*;
use crate::route::{decodable, route_of, Route, RouteMessage};

verus! {

/// A change of the kernel's routing table, as the kernel broadcast it.
#[derive(Clone, Copy, Debug, PartialEq, Eq, Structural)]
pub enum RouteChange {
    Add(Route),
    Delete(Route),
}

/// A message that arrives unrequested on the kernel connection.
#[derive(Debug)]
pub enum InboundMessage {
    NewRoute(RouteMessage),
    DelRoute(RouteMessage),
    /// Anything else: other payloads, late responses, errors.
    Other,
}

/// The inbound message can be published: it carries no route, or a route
/// that can be read.
pub open spec fn publishable(m: InboundMessage) -> bool {
    match m {
        InboundMessage::NewRoute(r) => decodable(r),
        InboundMessage::DelRoute(r) => decodable(r),
        InboundMessage::Other => true,
    }
}

/// The event that an inbound message publishes, if any.
pub open spec fn change_of(m: InboundMessage) -> Option<RouteChange> {
    match m {
        InboundMessage::NewRoute(r) => Some(RouteChange::Add(route_of(r))),
        InboundMessage::DelRoute(r) => Some(RouteChange::Delete(route_of(r))),
        InboundMessage::Other => None,
    }
}

impl InboundMessage {
    /// Whether the message can be handed to `route_change`.
    pub fn is_publishable(&self) -> (r: bool)
        ensures
            r == publishable(*self),
    {
        match self {
            InboundMessage::NewRoute(r) => r.is_decodable(),
            InboundMessage::DelRoute(r) => r.is_decodable(),
            InboundMessage::Other => true,
        }
    }
}

/// The event to publish for an inbound message: a new route is an `Add`, a
/// removed one a `Delete`; everything else publishes nothing.
pub fn route_change(msg: &InboundMessage) -> (r: Option<RouteChange>)
    requires
        publishable(*msg),
    ensures
        r == change_of(*msg),
{
    match msg {
        InboundMessage::NewRoute(m) => Some(RouteChange::Add(Route::from_message(m))),
        InboundMessage::DelRoute(m) => Some(RouteChange::Delete(Route::from_message(m))),
        InboundMessage::Other => None,
    }
}

/// What a subscriber's receive call gave.
#[derive(Clone, Copy, Debug, PartialEq, Eq, Structural)]
pub enum Received {
    Event(RouteChange),
    /// The subscriber fell behind and this many of the oldest unread events
    /// were dropped for it.
    Lagged(u64),
    /// The publisher is gone: the handle was torn down.
    Closed,
}

/// What the event sequence does next.
#[derive(Clone, Copy, Debug, PartialEq, Eq, Structural)]
pub enum StreamStep {
    Yield(RouteChange),
    /// Receive again.
    Skip,
    /// The sequence ends.
    End,
}

pub open spec fn step_of(r: Received) -> StreamStep {
    match r {
        Received::Event(e) => StreamStep::Yield(e),
        Received::Lagged(_) => StreamStep::Skip,
        Received::Closed => StreamStep::End,
    }
}

/// A subscriber yields each event it receives, goes on past events lost to
/// lag without failing, and ends cleanly once the channel closes.
pub fn stream_step(r: Received) -> (s: StreamStep)
    ensures
        s == step_of(r),
        r == Received::Closed <==> s == StreamStep::End,
{
    match r {
        Received::Event(e) => StreamStep::Yield(e),
        Received::Lagged(_) => StreamStep::Skip,
        Received::Closed => StreamStep::End,
    }
}

} // verus!
