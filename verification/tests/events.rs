use json_event_parser::JsonEvent;
use json_event_parser::SliceJsonParser;
use ndjson_extract::error::ExtractError;
use ndjson_extract::error::StreamError;
use ndjson_extract::error::StructureError;
use ndjson_extract::event::Event;
use ndjson_extract::event::EventKind;
use ndjson_extract::extract::extract_events;
use ndjson_extract::extractor::Extractor;
use ndjson_extract::extractor::Step;
use ndjson_extract::navigator::Phase;

fn key(text: &str) -> Event {
    Event::ObjectKey(text.to_string())
}

fn number(text: &str) -> Event {
    Event::Number(text.to_string())
}

fn run(events: &[Event], target_key: &str) -> (String, Result<(), ExtractError>) {
    let mut out = Vec::new();
    let result = extract_events(events, target_key, &mut out);
    (String::from_utf8(out).unwrap(), result)
}

fn structure(error: StructureError) -> Result<(), ExtractError> {
    Err(ExtractError::Structure(error))
}

fn tokenize(text: &str) -> Vec<Event> {
    let mut parser = SliceJsonParser::new(text.as_bytes());
    let mut events = Vec::new();
    loop {
        let event = match parser.parse_next().unwrap() {
            JsonEvent::String(text) => Event::String(text.into_owned()),
            JsonEvent::Number(text) => Event::Number(text.into_owned()),
            JsonEvent::Boolean(value) => Event::Boolean(value),
            JsonEvent::Null => Event::Null,
            JsonEvent::StartArray => Event::StartArray,
            JsonEvent::EndArray => Event::EndArray,
            JsonEvent::StartObject => Event::StartObject,
            JsonEvent::EndObject => Event::EndObject,
            JsonEvent::ObjectKey(text) => Event::ObjectKey(text.into_owned()),
            JsonEvent::Eof => return events,
        };
        events.push(event);
    }
}

#[test]
fn every_event_has_its_kind() {
    assert_eq!(Event::String("s".to_string()).kind(), EventKind::String);
    assert_eq!(number("1").kind(), EventKind::Number);
    assert_eq!(Event::Boolean(false).kind(), EventKind::Boolean);
    assert_eq!(Event::Null.kind(), EventKind::Null);
    assert_eq!(Event::StartArray.kind(), EventKind::StartArray);
    assert_eq!(Event::EndArray.kind(), EventKind::EndArray);
    assert_eq!(Event::StartObject.kind(), EventKind::StartObject);
    assert_eq!(Event::EndObject.kind(), EventKind::EndObject);
    assert_eq!(key("k").kind(), EventKind::ObjectKey);
    assert_eq!(Event::Eof.kind(), EventKind::Eof);
}

#[test]
fn opening_and_closing_events_are_recognised() {
    assert!(Event::StartObject.opens());
    assert!(Event::StartArray.opens());
    assert!(!Event::EndArray.opens());
    assert!(!Event::Null.opens());
    assert!(Event::EndObject.closes());
    assert!(Event::EndArray.closes());
    assert!(!Event::StartArray.closes());
    assert!(!key("a").closes());
    assert!(Event::Eof.is_eof());
    assert!(!Event::Boolean(true).is_eof());
}

#[test]
fn the_end_of_the_stream_after_the_collection_is_success() {
    let events = [Event::StartObject, key("result"), Event::StartObject, Event::EndObject];
    assert_eq!(run(&events, "result"), (String::new(), Ok(())));
    let events = [Event::StartObject, key("result"), Event::StartObject, Event::EndObject, Event::Eof];
    assert_eq!(run(&events, "result"), (String::new(), Ok(())));
}

#[test]
fn records_are_written_and_the_stream_ends() {
    let events = [
        Event::StartObject,
        key("id"),
        number("1"),
        key("result"),
        Event::StartObject,
        key("a"),
        Event::StartObject,
        key("x"),
        number("1"),
        Event::EndObject,
        key("b"),
        Event::StartArray,
        number("1"),
        number("2"),
        number("3"),
        Event::EndArray,
        Event::EndObject,
        Event::Eof,
    ];
    assert_eq!(run(&events, "result"), ("{\"x\":1}\n[1,2,3]\n".to_string(), Ok(())));
}

#[test]
fn events_after_the_end_of_the_extraction_are_not_read() {
    let events = [
        Event::StartObject,
        key("result"),
        Event::StartObject,
        Event::EndObject,
        Event::Eof,
        key("result"),
        Event::StartObject,
        key("late"),
        Event::Null,
    ];
    assert_eq!(run(&events, "result"), (String::new(), Ok(())));
}

#[test]
fn the_events_of_a_document_give_what_its_text_gives() {
    let text = r#"{"id":1,"result":{"a":{"x":1},"b":[1,2,3]}}"#;
    let (out, result) = run(&tokenize(text), "result");
    assert_eq!(out, "{\"x\":1}\n[1,2,3]\n");
    assert_eq!(result, structure(StructureError::TrailingData(EventKind::EndObject)));
}

#[test]
fn no_events_at_all_are_no_top_level_object() {
    assert_eq!(
        run(&[], "result"),
        (String::new(), structure(StructureError::ExpectedTopLevelObject(EventKind::Eof)))
    );
    assert_eq!(
        run(&[Event::StartArray], "result"),
        (String::new(), structure(StructureError::ExpectedTopLevelObject(EventKind::StartArray)))
    );
}

#[test]
fn a_stream_that_ends_in_the_root_has_no_target_key() {
    let events = [Event::StartObject, key("a"), number("1")];
    assert_eq!(run(&events, "result"), (String::new(), structure(StructureError::MissingTargetKey)));
}

#[test]
fn a_stream_that_ends_inside_a_record_is_truncated() {
    let events = [
        Event::StartObject,
        key("result"),
        Event::StartObject,
        key("a"),
        number("1"),
        key("b"),
        Event::StartObject,
        key("x"),
        Event::StartArray,
    ];
    assert_eq!(run(&events, "result"), ("1\n".to_string(), structure(StructureError::TruncatedRecord)));
}

#[test]
fn a_stream_that_ends_after_a_record_key_is_truncated() {
    let events = [Event::StartObject, key("result"), Event::StartObject, key("a")];
    assert_eq!(run(&events, "result"), (String::new(), structure(StructureError::TruncatedRecord)));
}

#[test]
fn a_stream_that_ends_inside_a_skipped_value_is_truncated() {
    let events = [Event::StartObject, key("a"), Event::StartArray, number("1")];
    assert_eq!(run(&events, "result"), (String::new(), structure(StructureError::TruncatedRecord)));
}

#[test]
fn a_stream_that_ends_inside_the_collection_is_unexpected() {
    let events = [Event::StartObject, key("result"), Event::StartObject, key("a"), number("1")];
    assert_eq!(
        run(&events, "result"),
        ("1\n".to_string(), structure(StructureError::UnexpectedEvent(EventKind::Eof)))
    );
}

#[test]
fn a_closing_event_with_nothing_open_is_unexpected() {
    let events = [Event::StartObject, key("a"), Event::EndObject];
    assert_eq!(
        run(&events, "result"),
        (String::new(), structure(StructureError::UnexpectedEvent(EventKind::EndObject)))
    );
    let events = [Event::StartObject, Event::EndArray];
    assert_eq!(
        run(&events, "result"),
        (String::new(), structure(StructureError::UnexpectedEvent(EventKind::EndArray)))
    );
    let events = [Event::StartObject, key("result"), Event::StartObject, key("a"), Event::EndArray];
    assert_eq!(
        run(&events, "result"),
        (String::new(), structure(StructureError::UnexpectedEvent(EventKind::EndArray)))
    );
}

#[test]
fn a_value_without_a_key_in_the_collection_is_unexpected() {
    let events = [Event::StartObject, key("result"), Event::StartObject, number("1")];
    assert_eq!(
        run(&events, "result"),
        (String::new(), structure(StructureError::UnexpectedEvent(EventKind::Number)))
    );
    let events = [Event::StartObject, key("result"), Event::StartObject, Event::StartObject];
    assert_eq!(
        run(&events, "result"),
        (String::new(), structure(StructureError::UnexpectedEvent(EventKind::StartObject)))
    );
}

#[test]
fn a_bare_value_in_the_root_is_skipped() {
    let events = [
        Event::StartObject,
        number("1"),
        Event::StartArray,
        key("result"),
        Event::StartObject,
        Event::EndObject,
        Event::EndArray,
        key("result"),
        Event::StartObject,
        key("a"),
        Event::Null,
        Event::EndObject,
    ];
    assert_eq!(run(&events, "result"), ("null\n".to_string(), Ok(())));
}

#[test]
fn anything_but_the_end_after_the_collection_is_trailing_data() {
    let head = [Event::StartObject, key("result"), Event::StartObject, Event::EndObject];
    for extra in [Event::EndObject, key("x"), Event::Null, Event::StartArray, Event::EndArray] {
        let kind = extra.kind();
        let mut events = head.to_vec();
        events.push(extra);
        assert_eq!(
            run(&events, "result"),
            (String::new(), structure(StructureError::TrailingData(kind)))
        );
    }
}

#[test]
fn events_that_the_serializer_refuses_are_a_stream_error() {
    let events = [
        Event::StartObject,
        key("result"),
        Event::StartObject,
        key("a"),
        number("1"),
        key("b"),
        Event::StartObject,
        Event::EndArray,
        key("c"),
        number("3"),
        Event::EndObject,
    ];
    assert_eq!(
        run(&events, "result"),
        ("1\n".to_string(), Err(ExtractError::Stream(StreamError::Serialize)))
    );
    let events = [
        Event::StartObject,
        key("result"),
        Event::StartObject,
        key("a"),
        Event::StartObject,
        number("1"),
    ];
    assert_eq!(
        run(&events, "result"),
        (String::new(), Err(ExtractError::Stream(StreamError::Serialize)))
    );
}

#[test]
fn a_key_where_a_record_value_is_expected_is_refused_by_the_serializer() {
    let events = [Event::StartObject, key("result"), Event::StartObject, key("a"), key("b")];
    assert_eq!(
        run(&events, "result"),
        (String::new(), Err(ExtractError::Stream(StreamError::Serialize)))
    );
}

#[test]
fn feeding_gives_each_line_with_the_last_event_of_its_record() {
    let mut extractor = Extractor::new("result");
    assert_eq!(extractor.target_key(), "result");
    assert_eq!(extractor.phase(), Phase::Start);
    assert_eq!(extractor.outcome(), None);
    assert_eq!(extractor.feed(&Event::StartObject), Ok(Step::Pending));
    assert_eq!(extractor.phase(), Phase::Root);
    assert_eq!(extractor.feed(&key("skip")), Ok(Step::Pending));
    assert_eq!(extractor.feed(&Event::StartArray), Ok(Step::Pending));
    assert_eq!(extractor.depth(), 1);
    assert_eq!(extractor.feed(&Event::StartArray), Ok(Step::Pending));
    assert_eq!(extractor.depth(), 2);
    assert_eq!(extractor.feed(&Event::EndArray), Ok(Step::Pending));
    assert_eq!(extractor.feed(&Event::EndArray), Ok(Step::Pending));
    assert_eq!(extractor.depth(), 0);
    assert_eq!(extractor.feed(&key("result")), Ok(Step::Pending));
    assert_eq!(extractor.feed(&Event::StartObject), Ok(Step::Pending));
    assert_eq!(extractor.phase(), Phase::Collection);
    assert_eq!(extractor.feed(&key("one")), Ok(Step::Pending));
    assert_eq!(extractor.phase(), Phase::Record);
    assert_eq!(extractor.feed(&Event::StartObject), Ok(Step::Pending));
    assert_eq!(extractor.depth(), 1);
    assert_eq!(extractor.feed(&key("s")), Ok(Step::Pending));
    assert_eq!(extractor.feed(&Event::String("a\"b".to_string())), Ok(Step::Pending));
    assert_eq!(extractor.feed(&Event::EndObject), Ok(Step::Line(b"{\"s\":\"a\\\"b\"}\n".to_vec())));
    assert_eq!(extractor.depth(), 0);
    assert_eq!(extractor.feed(&key("two")), Ok(Step::Pending));
    assert_eq!(extractor.feed(&Event::Boolean(false)), Ok(Step::Line(b"false\n".to_vec())));
    assert_eq!(extractor.outcome(), None);
    assert_eq!(extractor.feed(&Event::EndObject), Ok(Step::Pending));
    assert_eq!(extractor.feed(&Event::Eof), Ok(Step::Finished));
    assert_eq!(extractor.outcome(), Some(Ok(())));
}

#[test]
fn an_extraction_that_has_ended_answers_every_event_alike() {
    let mut done = Extractor::new("result");
    for event in [Event::StartObject, key("result"), Event::StartObject, Event::EndObject, Event::Eof] {
        let _ = done.feed(&event);
    }
    assert_eq!(done.feed(&key("result")), Ok(Step::Finished));
    assert_eq!(done.feed(&Event::Eof), Ok(Step::Finished));
    assert_eq!(done.outcome(), Some(Ok(())));

    let mut failed = Extractor::new("result");
    let error = ExtractError::Structure(StructureError::ExpectedTopLevelObject(EventKind::Null));
    assert_eq!(failed.feed(&Event::Null), Err(error));
    assert_eq!(failed.feed(&Event::StartObject), Err(error));
    assert_eq!(failed.outcome(), Some(Err(error)));

    let mut refused = Extractor::new("result");
    for event in [Event::StartObject, key("result"), Event::StartObject, key("a"), Event::StartArray] {
        let _ = refused.feed(&event);
    }
    let error = ExtractError::Stream(StreamError::Serialize);
    assert_eq!(refused.feed(&Event::EndObject), Err(error));
    assert_eq!(refused.feed(&Event::EndArray), Err(error));
    assert_eq!(refused.outcome(), Some(Err(error)));
}

#[test]
fn each_line_gives_back_the_events_of_its_record() {
    let text = r#"{"n":[0],"result":{"a":{"k":[1,{"d":[[],{}]},"s\n"],"t":null},"b":[[[2.5]]],"c":"only"}}"#;
    let events = tokenize(text);
    let (out, _) = run(&events, "result");
    let lines: Vec<&str> = out.lines().collect();
    assert_eq!(lines.len(), 3);
    assert_eq!(tokenize(lines[0]), tokenize(r#"{"k":[1,{"d":[[],{}]},"s\n"],"t":null}"#));
    assert_eq!(tokenize(lines[1]), tokenize("[[[2.5]]]"));
    assert_eq!(tokenize(lines[2]), vec![Event::String("only".to_string())]);
    for line in lines {
        let events = tokenize(line);
        let opens = events.iter().filter(|event| event.opens()).count();
        let closes = events.iter().filter(|event| event.closes()).count();
        assert_eq!(opens, closes);
    }
}
