use findata::{coerce, decode_reparsed, ErrorKind, FromValue, JsonNumber, JsonValue};

/// A target that takes every value but text, so that text is always reparsed.
#[derive(Debug, PartialEq)]
struct Reparsed(JsonValue);

impl FromValue for Reparsed {
    fn from_value(value: &JsonValue) -> Option<Self> {
        match value {
            JsonValue::Text(_) => None,
            other => Some(Reparsed(other.duplicate())),
        }
    }
}

/// What `text` holds as JSON, by way of the second stage.
fn parse(text: &str) -> Option<JsonValue> {
    coerce::<Reparsed>(&JsonValue::Text(text.to_string()))
        .ok()
        .map(|reparsed| reparsed.0)
}

#[test]
fn parse_gives_the_value_that_the_text_holds() {
    assert_eq!(parse("null"), Some(JsonValue::Null));
    assert_eq!(parse("true"), Some(JsonValue::Bool(true)));
    assert_eq!(
        parse("42"),
        Some(JsonValue::Number(JsonNumber::PosInt(42)))
    );
    assert_eq!(
        parse("-7"),
        Some(JsonValue::Number(JsonNumber::NegInt(-7)))
    );
    assert_eq!(
        parse("3.5"),
        Some(JsonValue::Number(JsonNumber::Float(3.5f64.to_bits())))
    );
    assert_eq!(
        coerce::<Vec<String>>(&JsonValue::Text("[\"abc\"]".to_string())),
        Ok(vec!["abc".to_string()])
    );
    assert_eq!(
        parse("[1, [2], \"x\"]"),
        Some(JsonValue::Array(vec![
            JsonValue::Number(JsonNumber::PosInt(1)),
            JsonValue::Array(vec![JsonValue::Number(JsonNumber::PosInt(2))]),
            JsonValue::Text("x".to_string()),
        ]))
    );
}

#[test]
fn parse_keeps_the_fields_of_an_object() {
    let parsed = parse(r#"{"name": "test", "value": 100, "inner": {"on": false}}"#)
        .unwrap();
    assert_eq!(parsed.field("name"), Some(&JsonValue::Text("test".to_string())));
    assert_eq!(
        parsed.field("value"),
        Some(&JsonValue::Number(JsonNumber::PosInt(100)))
    );
    assert_eq!(
        parsed.field("inner").unwrap().field("on"),
        Some(&JsonValue::Bool(false))
    );
    assert_eq!(parsed.field("absent"), None);
}

#[test]
fn parse_refuses_what_is_no_json() {
    assert_eq!(parse("not_a_number"), None);
    assert_eq!(parse(""), None);
    assert_eq!(parse("[1, 2"), None);
    assert_eq!(parse("1 2"), None);
}

#[test]
fn second_stage_decodes_what_was_parsed() {
    let parsed = Some(JsonValue::Number(JsonNumber::PosInt(12345)));
    assert_eq!(decode_reparsed::<i32>(parsed), Ok(12345));
    let parsed = Some(JsonValue::Text("x".to_string()));
    assert_eq!(
        decode_reparsed::<i32>(parsed),
        Err(ErrorKind::TypeCoercionFailed)
    );
    assert_eq!(
        decode_reparsed::<i32>(None),
        Err(ErrorKind::TypeCoercionFailed)
    );
}

#[test]
fn coerce_takes_the_stages_in_order() {
    assert_eq!(
        coerce::<i64>(&JsonValue::Number(JsonNumber::PosInt(42))),
        Ok(42)
    );
    assert_eq!(coerce::<i64>(&JsonValue::Text("42".to_string())), Ok(42));
    assert_eq!(
        coerce::<String>(&JsonValue::Text("42".to_string())),
        Ok("42".to_string())
    );
    assert_eq!(
        coerce::<i64>(&JsonValue::Null),
        Err(ErrorKind::ArgumentNotFound)
    );
    assert_eq!(
        coerce::<i64>(&JsonValue::Bool(true)),
        Err(ErrorKind::TypeCoercionFailed)
    );
    assert_eq!(
        coerce::<Vec<bool>>(&JsonValue::Text("[true, false]".to_string())),
        Ok(vec![true, false])
    );
    assert_eq!(
        coerce::<Option<i64>>(&JsonValue::Null),
        Ok(None)
    );
}

#[test]
fn as_str_and_is_null_tell_the_kinds_apart() {
    assert_eq!(JsonValue::Text("a".to_string()).as_str(), Some("a"));
    assert_eq!(JsonValue::Bool(true).as_str(), None);
    assert!(JsonValue::Null.is_null());
    assert!(!JsonValue::Bool(false).is_null());
}

#[test]
fn duplicate_is_equal_to_what_it_copies() {
    let value = parse(r#"{"a": [1, 2.5, "x", null], "b": {"c": true}}"#).unwrap();
    assert_eq!(value.duplicate(), value);
}
