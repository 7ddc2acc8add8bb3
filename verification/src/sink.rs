//! The JSON serializer that a record's events are handed to.

use vstd::prelude::*;
use crate::event::Event;
use crate::event::EventModel;
use json_event_parser::JsonEvent;
use json_event_parser::LowLevelJsonSerializer;
use std::borrow::Cow;

verus! {

/// `json_event_parser::LowLevelJsonSerializer`, of which nothing is known
/// but what `journal` says.
#[verifier::external_type_specification]
#[verifier::external_body]
pub struct ExLowLevelJsonSerializer(LowLevelJsonSerializer);

/// `std::io::Error`, with which the serializer refuses an event; it is
/// carried and not looked into.
#[verifier::external_type_specification]
#[verifier::external_body]
pub struct ExIoError(std::io::Error);

/// The events that a serializer has accepted since it was made, oldest
/// first, as long as it has refused none.
pub uninterp spec fn journal(serializer: LowLevelJsonSerializer) -> Seq<EventModel>;

/// What a serializer that has accepted `before` does with `event`: the
/// bytes that it writes for it, or `None` where it refuses the event.
pub uninterp spec fn emitted(before: Seq<EventModel>, event: EventModel) -> Option<Seq<u8>>;

/// `LowLevelJsonSerializer::new`: a serializer that has accepted nothing.
#[verifier::external_body]
pub(crate) fn new_serializer() -> (serializer: LowLevelJsonSerializer)
    ensures
        journal(serializer) == Seq::<EventModel>::empty(),
{
    LowLevelJsonSerializer::new()
}

/// `LowLevelJsonSerializer::serialize_event`, writing to a vector. Whether
/// the event is accepted, and the bytes then appended to `out`, depend on
/// the event and on the events accepted before it alone. An accepted
/// event is added to the journal; a refusal comes before anything is
/// written and leaves `out` as it was.
#[verifier::external_body]
pub(crate) fn serialize_event(
    serializer: &mut LowLevelJsonSerializer,
    event: &Event,
    out: &mut Vec<u8>,
) -> (r: Result<(), std::io::Error>)
    ensures
        match emitted(journal(*old(serializer)), event@) {
            Some(bytes) => {
                &&& r is Ok
                &&& journal(*final(serializer)) == journal(*old(serializer)).push(event@)
                &&& final(out)@ == old(out)@ + bytes
            },
            None => r is Err && final(out)@ == old(out)@,
        },
{
    let json = match event {
        Event::String(text) => JsonEvent::String(Cow::Borrowed(text.as_str())),
        Event::Number(text) => JsonEvent::Number(Cow::Borrowed(text.as_str())),
        Event::Boolean(value) => JsonEvent::Boolean(*value),
        Event::Null => JsonEvent::Null,
        Event::StartArray => JsonEvent::StartArray,
        Event::EndArray => JsonEvent::EndArray,
        Event::StartObject => JsonEvent::StartObject,
        Event::EndObject => JsonEvent::EndObject,
        Event::ObjectKey(text) => JsonEvent::ObjectKey(Cow::Borrowed(text.as_str())),
        Event::Eof => JsonEvent::Eof,
    };
    serializer.serialize_event(json, out)
}

} // verus!
