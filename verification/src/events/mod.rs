//! Structs used in handling the events that Discord sends to the webhook

use vstd::prelude::*;
use crate::structs::Timestamp;
use crate::structs::events::{EventBody, EventData};
use crate::text::string_of;

pub use crate::structs::events::EventType;

verus! {

/// Error for when an event has already been acknowledged
#[derive(Clone, Copy, Debug, PartialEq, Eq, Structural)]
pub struct EventResponseError;

impl EventResponseError {
    /// The text that describes the error.
    pub fn message(&self) -> (r: String)
        ensures
            r@ == "Event has already been responded to."@,
    {
        string_of("Event has already been responded to.")
    }
}

/// What an event handler is told of the event, besides its data
#[derive(Clone, Debug)]
pub struct EventInput {
    /// [Event type](EventType)
    pub event_type: EventType,
    /// Timestamp of when the event occurred in [ISO8601 format](https://discord.com/developers/docs/reference#iso8601-datetime)
    pub timestamp: Timestamp,
}

/// Why an event could not be handed to its handler
#[derive(Clone, Copy, Debug, PartialEq, Eq, Structural)]
pub enum EventError {
    /// Event has no data
    NoData,
}

/// The input and the data that an event's handler gets; an error for an event without data
pub fn event_input(body: EventBody) -> (r: Result<(EventInput, EventData), EventError>)
    ensures
        match body.data {
            None => r == Err::<(EventInput, EventData), EventError>(EventError::NoData),
            Some(d) => r == Ok::<(EventInput, EventData), EventError>((EventInput { event_type: body.event_type, timestamp: body.timestamp }, d)),
        },
{
    let EventBody { event_type, timestamp, data } = body;
    match data {
        Some(d) => Ok((EventInput { event_type, timestamp }, d)),
        None => Err(EventError::NoData),
    }
}

} // verus!
