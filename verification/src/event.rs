//! The events of a JSON document, and what the rules read of them.

use vstd::prelude::*;

verus! {

/// One event of a JSON document as a mathematical value: the texts are
/// sequences of characters.
pub enum EventModel {
    String(Seq<char>),
    Number(Seq<char>),
    Boolean(bool),
    Null,
    StartArray,
    EndArray,
    StartObject,
    EndObject,
    ObjectKey(Seq<char>),
    Eof,
}

impl EventModel {
    /// The event opens an object or an array.
    pub open spec fn opens(self) -> bool {
        self is StartObject || self is StartArray
    }

    /// The event closes an object or an array.
    pub open spec fn closes(self) -> bool {
        self is EndObject || self is EndArray
    }
}

/// What kind of event an event is, without its text.
#[derive(Clone, Copy, Debug, PartialEq, Eq, Structural)]
pub enum EventKind {
    String,
    Number,
    Boolean,
    Null,
    StartArray,
    EndArray,
    StartObject,
    EndObject,
    ObjectKey,
    Eof,
}

impl EventModel {
    /// The kind of the event.
    pub open spec fn kind(self) -> EventKind {
        match self {
            EventModel::String(_) => EventKind::String,
            EventModel::Number(_) => EventKind::Number,
            EventModel::Boolean(_) => EventKind::Boolean,
            EventModel::Null => EventKind::Null,
            EventModel::StartArray => EventKind::StartArray,
            EventModel::EndArray => EventKind::EndArray,
            EventModel::StartObject => EventKind::StartObject,
            EventModel::EndObject => EventKind::EndObject,
            EventModel::ObjectKey(_) => EventKind::ObjectKey,
            EventModel::Eof => EventKind::Eof,
        }
    }
}

/// One event of a JSON document.
#[derive(Clone, Debug, PartialEq, Eq)]
pub enum Event {
    String(String),
    Number(String),
    Boolean(bool),
    Null,
    StartArray,
    EndArray,
    StartObject,
    EndObject,
    ObjectKey(String),
    Eof,
}

impl View for Event {
    type V = EventModel;

    open spec fn view(&self) -> EventModel {
        match self {
            Event::String(text) => EventModel::String(text@),
            Event::Number(text) => EventModel::Number(text@),
            Event::Boolean(value) => EventModel::Boolean(*value),
            Event::Null => EventModel::Null,
            Event::StartArray => EventModel::StartArray,
            Event::EndArray => EventModel::EndArray,
            Event::StartObject => EventModel::StartObject,
            Event::EndObject => EventModel::EndObject,
            Event::ObjectKey(text) => EventModel::ObjectKey(text@),
            Event::Eof => EventModel::Eof,
        }
    }
}

/// The models of a sequence of events, one for one.
pub open spec fn models(events: Seq<Event>) -> Seq<EventModel> {
    Seq::new(events.len(), |i: int| events[i]@)
}

impl Event {
    /// The kind of the event.
    pub fn kind(&self) -> (r: EventKind)
        ensures
            r == self@.kind(),
    {
        match self {
            Event::String(_) => EventKind::String,
            Event::Number(_) => EventKind::Number,
            Event::Boolean(_) => EventKind::Boolean,
            Event::Null => EventKind::Null,
            Event::StartArray => EventKind::StartArray,
            Event::EndArray => EventKind::EndArray,
            Event::StartObject => EventKind::StartObject,
            Event::EndObject => EventKind::EndObject,
            Event::ObjectKey(_) => EventKind::ObjectKey,
            Event::Eof => EventKind::Eof,
        }
    }

    /// Whether the event opens an object or an array.
    pub fn opens(&self) -> (r: bool)
        ensures
            r == self@.opens(),
    {
        match self {
            Event::StartObject => true,
            Event::StartArray => true,
            _ => false,
        }
    }

    /// Whether the event closes an object or an array.
    pub fn closes(&self) -> (r: bool)
        ensures
            r == self@.closes(),
    {
        match self {
            Event::EndObject => true,
            Event::EndArray => true,
            _ => false,
        }
    }

    /// Whether the event is the end of the stream.
    pub fn is_eof(&self) -> (r: bool)
        ensures
            r == (self@ is Eof),
    {
        match self {
            Event::Eof => true,
            _ => false,
        }
    }
}

} // verus!
