use ndjson_extract::error::ExtractError;
use ndjson_extract::error::StreamError;
use ndjson_extract::error::StructureError;
use ndjson_extract::event::EventKind;
use ndjson_extract::extract::extract_records;

fn extract(input: &str, target_key: &str) -> (String, Result<(), ExtractError>) {
    let mut out = Vec::new();
    let result = extract_records(input.as_bytes(), target_key, &mut out);
    (String::from_utf8(out).unwrap(), result)
}

fn structure(error: StructureError) -> Result<(), ExtractError> {
    Err(ExtractError::Structure(error))
}

#[test]
fn each_member_of_the_collection_becomes_one_line() {
    let (out, _) = extract(r#"{"id":1,"result":{"a":{"x":1},"b":[1,2,3]}}"#, "result");
    assert_eq!(out, "{\"x\":1}\n[1,2,3]\n");
}

#[test]
fn the_closing_of_the_root_after_the_collection_is_trailing_data() {
    let (out, result) = extract(r#"{"id":1,"result":{"a":{"x":1},"b":[1,2,3]}}"#, "result");
    assert_eq!(out, "{\"x\":1}\n[1,2,3]\n");
    assert_eq!(result, structure(StructureError::TrailingData(EventKind::EndObject)));
}

#[test]
fn an_empty_collection_gives_no_lines() {
    let (out, result) = extract(r#"{"result":{}}"#, "result");
    assert_eq!(out, "");
    assert_eq!(result, structure(StructureError::TrailingData(EventKind::EndObject)));
}

#[test]
fn a_document_without_the_target_key_fails_before_any_output() {
    let (out, result) = extract(r#"{"other":{"k":{}}}"#, "result");
    assert_eq!(out, "");
    assert_eq!(result, structure(StructureError::MissingTargetKey));
}

#[test]
fn an_empty_root_has_no_target_key() {
    let (out, result) = extract("{}", "result");
    assert_eq!(out, "");
    assert_eq!(result, structure(StructureError::MissingTargetKey));
}

#[test]
fn the_root_must_be_an_object() {
    let (out, result) = extract(r#"[{"result":{}}]"#, "result");
    assert_eq!(out, "");
    assert_eq!(result, structure(StructureError::ExpectedTopLevelObject(EventKind::StartArray)));
    let (_, result) = extract("17", "result");
    assert_eq!(result, structure(StructureError::ExpectedTopLevelObject(EventKind::Number)));
}

#[test]
fn the_value_of_the_target_key_must_be_an_object() {
    let (out, result) = extract(r#"{"result":[{"a":1}]}"#, "result");
    assert_eq!(out, "");
    assert_eq!(
        result,
        structure(StructureError::ExpectedObjectAfterTargetKey(EventKind::StartArray))
    );
    let (_, result) = extract(r#"{"result":null}"#, "result");
    assert_eq!(result, structure(StructureError::ExpectedObjectAfterTargetKey(EventKind::Null)));
    let (_, result) = extract(r#"{"id":1,"result":"x"}"#, "result");
    assert_eq!(result, structure(StructureError::ExpectedObjectAfterTargetKey(EventKind::String)));
}

#[test]
fn members_before_the_target_key_are_skipped_however_deep() {
    let input = r#"{"a":{"b":[{"c":[1,{"d":null}]},[[[]]]],"e":{}},"f":[],"g":"result","result":{"k":{"v":true}}}"#;
    let (out, result) = extract(input, "result");
    assert_eq!(out, "{\"v\":true}\n");
    assert_eq!(result, structure(StructureError::TrailingData(EventKind::EndObject)));
}

#[test]
fn skipped_members_change_nothing_of_the_output() {
    let with = r#"{"x":{"result":{"no":1}},"y":[{"result":2}],"result":{"a":[1],"b":{}}}"#;
    let without = r#"{"result":{"a":[1],"b":{}}}"#;
    assert_eq!(extract(with, "result"), extract(without, "result"));
    assert_eq!(extract(without, "result").0, "[1]\n{}\n");
}

#[test]
fn a_key_that_equals_the_target_only_deeper_is_not_the_target() {
    let (out, result) = extract(r#"{"wrap":{"result":{"a":1}}}"#, "result");
    assert_eq!(out, "");
    assert_eq!(result, structure(StructureError::MissingTargetKey));
}

#[test]
fn the_target_key_is_matched_exactly() {
    let (out, result) = extract(r#"{"Result":{"a":1},"results":{"b":2},"result ":{"c":3}}"#, "result");
    assert_eq!(out, "");
    assert_eq!(result, structure(StructureError::MissingTargetKey));
    let (out, _) = extract(r#"{"result":{"a":1},"deals":{"b":2}}"#, "deals");
    assert_eq!(out, "2\n");
    let (out, _) = extract(r#"{"deals":{"b":2},"result":{"a":1}}"#, "result");
    assert_eq!(out, "1\n");
}

#[test]
fn lines_come_in_the_order_of_the_keys() {
    let (out, _) = extract(r#"{"result":{"z":{"n":1},"a":{"n":2},"m":{"n":3},"b":{"n":4}}}"#, "result");
    assert_eq!(out, "{\"n\":1}\n{\"n\":2}\n{\"n\":3}\n{\"n\":4}\n");
}

#[test]
fn a_record_may_be_any_value() {
    let (out, _) = extract(r#"{"result":{"a":1,"b":"x","c":null,"d":true,"e":false,"f":-2.5e3,"g":[],"h":{}}}"#, "result");
    assert_eq!(out, "1\n\"x\"\nnull\ntrue\nfalse\n-2.5e3\n[]\n{}\n");
}

#[test]
fn lines_are_compact_and_keep_the_order_of_their_keys() {
    let input = "{ \"result\" : {\n  \"1\" : { \"b\" : [ 1 , 2 ] ,\n \"a\" : { \"k\" : \"v\" } }\n} }";
    let (out, _) = extract(input, "result");
    assert_eq!(out, "{\"b\":[1,2],\"a\":{\"k\":\"v\"}}\n");
}

#[test]
fn strings_are_escaped_again() {
    let input = r#"{"result":{"k":{"q\"uote":"line\nbreak \\ A é tab\t"}}}"#;
    let (out, _) = extract(input, "result");
    assert_eq!(out, "{\"q\\\"uote\":\"line\\nbreak \\\\ A \u{e9} tab\\t\"}\n");
}

#[test]
fn a_deep_record_is_written_whole() {
    let mut value = String::new();
    for _ in 0..200 {
        value.push_str("{\"k\":[");
    }
    value.push_str("0");
    for _ in 0..200 {
        value.push_str("]}");
    }
    let input = format!("{{\"result\":{{\"deep\":{},\"next\":1}}}}", value);
    let (out, result) = extract(&input, "result");
    assert_eq!(out, format!("{}\n1\n", value));
    assert_eq!(result, structure(StructureError::TrailingData(EventKind::EndObject)));
}

#[test]
fn a_member_after_the_collection_is_trailing_data() {
    let (out, result) = extract(r#"{"result":{"a":1},"id":7}"#, "result");
    assert_eq!(out, "1\n");
    assert_eq!(result, structure(StructureError::TrailingData(EventKind::ObjectKey)));
}

#[test]
fn a_second_target_key_is_trailing_data() {
    let (out, result) = extract(r#"{"result":{"a":1},"result":{"b":2}}"#, "result");
    assert_eq!(out, "1\n");
    assert_eq!(result, structure(StructureError::TrailingData(EventKind::ObjectKey)));
}

#[test]
fn malformed_text_is_a_stream_error() {
    let (out, result) = extract(r#"{"result":{"a":{"x":1},"b":[1,2"#, "result");
    assert_eq!(out, "{\"x\":1}\n");
    assert_eq!(result, Err(ExtractError::Stream(StreamError::Syntax)));
    let (out, result) = extract(r#"{"result":{"a":tru}}"#, "result");
    assert_eq!(out, "");
    assert_eq!(result, Err(ExtractError::Stream(StreamError::Syntax)));
    let (_, result) = extract("", "result");
    assert_eq!(result, Err(ExtractError::Stream(StreamError::Syntax)));
}

#[test]
fn malformed_text_in_a_skipped_member_is_a_stream_error() {
    let (out, result) = extract(r#"{"a":[1,,2],"result":{"a":1}}"#, "result");
    assert_eq!(out, "");
    assert_eq!(result, Err(ExtractError::Stream(StreamError::Syntax)));
}

#[test]
fn output_is_appended_to_what_is_there() {
    let mut out = b"kept\n".to_vec();
    let _ = extract_records(br#"{"result":{"a":[true]}}"#, "result", &mut out);
    assert_eq!(out, b"kept\n[true]\n".to_vec());
    let _ = extract_records(br#"{"none":1}"#, "result", &mut out);
    assert_eq!(out, b"kept\n[true]\n".to_vec());
}

#[test]
fn the_number_of_lines_is_the_number_of_members() {
    let mut input = String::from("{\"meta\":{\"count\":500},\"result\":{");
    for i in 0..500 {
        if i > 0 {
            input.push(',');
        }
        input.push_str(&format!("\"{}\":{{\"id\":{},\"tags\":[{},{}]}}", i, i, i, i + 1));
    }
    input.push_str("}}");
    let (out, _) = extract(&input, "result");
    let lines: Vec<&str> = out.lines().collect();
    assert_eq!(lines.len(), 500);
    assert!(out.ends_with('\n'));
    for (i, line) in lines.iter().enumerate() {
        assert_eq!(*line, format!("{{\"id\":{},\"tags\":[{},{}]}}", i, i, i + 1));
    }
}
