//! The events that the service delivers through a queue.

use vstd::prelude::*;

use crate::api::viewed;
use crate::message::{Message, MessageFlag, MessageView, Timestamp};

verus! {

/// What an event is about.
#[derive(Debug, PartialEq, Eq)]
pub enum EventType {
    /// Nothing happened; the service shows that it is alive.
    Heartbeat,
    /// A message arrived.
    Message { flags: Vec<MessageFlag>, message: Message },
    /// An event of a kind that is not known here.
    Other,
}

/// [`EventType`], over the view of the message.
pub enum EventTypeView {
    Heartbeat,
    Message { flags: Seq<MessageFlag>, message: MessageView },
    Other,
}

impl View for EventType {
    type V = EventTypeView;

    open spec fn view(&self) -> EventTypeView {
        match self {
            EventType::Heartbeat => EventTypeView::Heartbeat,
            EventType::Message { flags, message } => EventTypeView::Message {
                flags: flags@,
                message: message@,
            },
            EventType::Other => EventTypeView::Other,
        }
    }
}

/// One event of a queue.  The service numbers the events of a queue in the
/// order in which it delivers them.
#[derive(Debug, PartialEq, Eq)]
pub struct Event {
    pub id: i64,
    pub rest: EventType,
}

/// What an [`Event`] holds.
pub struct EventView {
    pub id: int,
    pub rest: EventTypeView,
}

impl View for Event {
    type V = EventView;

    open spec fn view(&self) -> EventView {
        EventView { id: self.id as int, rest: self.rest@ }
    }
}

/// The second in which the message of `event` was sent, where `event` is a
/// message.
pub open spec fn instant_of(event: EventView) -> Option<int> {
    match event.rest {
        EventTypeView::Message { flags, message } => Some(message.timestamp),
        _ => None,
    }
}

impl Event {
    /// The instant at which the message of this event was sent, where this
    /// event is a message.  How the message is shown depends on the offset
    /// of the reader's time zone at that instant.
    pub fn instant(&self) -> (instant: Option<Timestamp>)
        ensures
            viewed(instant) == instant_of(self@),
    {
        match &self.rest {
            EventType::Message { flags, message } => Some(message.timestamp),
            _ => None,
        }
    }
}

/// The views of a list of events.
pub open spec fn events_view(events: Seq<Event>) -> Seq<EventView> {
    events.map_values(|event: Event| event@)
}

/// The answer to a poll: the events that came since the cursor, in the order
/// of delivery.
#[derive(Debug, PartialEq, Eq)]
pub struct PollEventQueue {
    pub events: Vec<Event>,
}

impl View for PollEventQueue {
    type V = Seq<EventView>;

    open spec fn view(&self) -> Seq<EventView> {
        events_view(self.events@)
    }
}

} // verus!
