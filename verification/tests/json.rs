//! JSON values, read and written.

use aiop::json::{parse_json, try_write_json, write_json, Json};

#[test]
fn a_text_is_read_into_its_value() {
    let value = parse_json(
        "{\"b\":[1,-2,1.5,true,null],\"a\":{\"text\":\"\\u041f\"},\"big\":18446744073709551615}",
    )
    .expect("the text is JSON");
    assert_eq!(value.object_of("a").and_then(|inner| inner.text_of("text")), Some("П".to_owned()));
    assert_eq!(value.unsigned_of("big"), Some(u64::MAX));
    assert_eq!(
        value.items_of("b"),
        Some(&vec![
            Json::Number(Some(1)),
            Json::Number(None),
            Json::Number(None),
            Json::Bool(true),
            Json::Null,
        ])
    );
    assert!(value.is_object());
}

#[test]
fn members_are_found_by_name_and_kind() {
    let value = Json::object()
        .with("count", Json::Number(Some(3)))
        .with("done", Json::Bool(false))
        .with_text("name", "value");
    assert_eq!(value.get("name"), Some(&Json::Text("value".to_owned())));
    assert_eq!(value.get("missing"), None);
    assert!(value.text_is("name", "value"));
    assert!(!value.text_is("name", "other"));
    assert!(!value.text_is("count", "3"));
    assert_eq!(value.text_of("count"), None);
    assert_eq!(value.bool_of("done"), Some(false));
    assert_eq!(value.bool_of("name"), None);
    assert_eq!(value.unsigned_of("count"), Some(3));
    assert_eq!(value.unsigned_of("done"), None);
    assert_eq!(value.object_of("name"), None);
    assert_eq!(value.items_of("name"), None);
    assert_eq!(Json::one(Json::Null).get("name"), None);
}

#[test]
fn a_refusal_tells_why_the_text_is_not_json() {
    let message = parse_json("{invalid json}").expect_err("the text is not JSON");
    assert_eq!(message, "key must be a string at line 1 column 2");
}

#[test]
fn a_written_value_reads_back() {
    let value = Json::object()
        .with("items", Json::one(Json::Bool(true)))
        .with("number", Json::Number(Some(7)))
        .with_text("text", "line\n\"quoted\" 😀");
    assert!(value.is_writable());
    let text = write_json(&value);
    assert_eq!(
        text,
        "{\"items\":[true],\"number\":7,\"text\":\"line\\n\\\"quoted\\\" 😀\"}"
    );
    assert_eq!(parse_json(&text), Ok(value));
}

#[test]
fn only_values_with_a_text_of_their_own_are_written() {
    assert_eq!(try_write_json(&Json::Number(None)), None);
    let disordered = Json::object().with_text("b", "").with_text("a", "");
    assert!(!disordered.is_writable());
    assert_eq!(try_write_json(&disordered), None);
    let repeated = Json::object().with_text("a", "1").with_text("a", "2");
    assert_eq!(try_write_json(&repeated), None);
    assert_eq!(try_write_json(&Json::object()), Some("{}".to_owned()));
}
