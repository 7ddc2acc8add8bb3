//! The tokenizer that turns the bytes of a document into events.

use vstd::prelude::*;
use crate::event::Event;
use crate::event::EventModel;
use json_event_parser::JsonEvent;
use json_event_parser::JsonSyntaxError;
use json_event_parser::SliceJsonParser;

verus! {

/// `json_event_parser::SliceJsonParser`, of which nothing is known but
/// what `pending` says.
#[verifier::external_type_specification]
#[verifier::external_body]
pub struct ExSliceJsonParser<'a>(SliceJsonParser<'a>);

/// `json_event_parser::JsonSyntaxError`, with which the tokenizer reports
/// malformed text; it is carried and not looked into.
#[verifier::external_type_specification]
#[verifier::external_body]
pub struct ExJsonSyntaxError(JsonSyntaxError);

/// The events that a tokenizer will still hand out, one per call: those
/// up to and with the end of the input, or those before the first call
/// that reports a syntax error.
pub uninterp spec fn pending(parser: SliceJsonParser<'_>) -> Seq<EventModel>;

/// The events that a new tokenizer over `input` will hand out: those of
/// the whole document with the end of the input as the last, or those
/// before the first syntax error.
pub uninterp spec fn document_events(input: Seq<u8>) -> Seq<EventModel>;

/// `SliceJsonParser::new`: a tokenizer at the start of `input`. Every
/// event but the end of the input takes at least one byte of it, so
/// there are no more events than bytes and one.
#[verifier::external_body]
pub(crate) fn new_parser<'a>(input: &'a [u8]) -> (parser: SliceJsonParser<'a>)
    ensures
        pending(parser) == document_events(input@),
        pending(parser).len() <= input@.len() + 1,
{
    SliceJsonParser::new(input)
}

/// `SliceJsonParser::parse_next`: the first of the pending events, which
/// is then no longer pending; a syntax error where none is pending. What
/// is pending after the end of the input was handed out is not said.
#[verifier::external_body]
pub(crate) fn parse_next<'a>(parser: &mut SliceJsonParser<'a>) -> (r: Result<
    Event,
    JsonSyntaxError,
>)
    ensures
        pending(*old(parser)).len() == 0 ==> r is Err,
        pending(*old(parser)).len() > 0 ==> {
            &&& r matches Ok(event)
            &&& event@ == pending(*old(parser))[0]
            &&& !(event@ is Eof) ==> pending(*final(parser)) == pending(*old(parser)).skip(1)
        },
{
    let event = parser.parse_next()?;
    Ok(match event {
        JsonEvent::String(text) => Event::String(text.into_owned()),
        JsonEvent::Number(text) => Event::Number(text.into_owned()),
        JsonEvent::Boolean(value) => Event::Boolean(value),
        JsonEvent::Null => Event::Null,
        JsonEvent::StartArray => Event::StartArray,
        JsonEvent::EndArray => Event::EndArray,
        JsonEvent::StartObject => Event::StartObject,
        JsonEvent::EndObject => Event::EndObject,
        JsonEvent::ObjectKey(text) => Event::ObjectKey(text.into_owned()),
        JsonEvent::Eof => Event::Eof,
    })
}

} // verus!
