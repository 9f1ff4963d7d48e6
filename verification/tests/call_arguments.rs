use findata::{
    AccessError, ErrorKind, FixedDecimal, FromValue, FunctionArgs, JsonNumber, JsonValue, NameMap,
};

#[derive(Debug, PartialEq)]
struct CustomStruct {
    name: String,
    value: i32,
}

impl FromValue for CustomStruct {
    fn from_value(value: &JsonValue) -> Option<Self> {
        let name = String::from_value(value.field("name")?)?;
        let value = i32::from_value(value.field("value")?)?;
        Some(CustomStruct { name, value })
    }
}

#[derive(Debug, PartialEq)]
struct Double(f64);

impl FromValue for Double {
    fn from_value(value: &JsonValue) -> Option<Self> {
        match value {
            JsonValue::Number(JsonNumber::PosInt(n)) => Some(Double(*n as f64)),
            JsonValue::Number(JsonNumber::NegInt(n)) => Some(Double(*n as f64)),
            JsonValue::Number(JsonNumber::Float(bits)) => Some(Double(f64::from_bits(*bits))),
            _ => None,
        }
    }
}

fn text(s: &str) -> JsonValue {
    JsonValue::Text(s.to_string())
}

fn whole(n: u64) -> JsonValue {
    JsonValue::Number(JsonNumber::PosInt(n))
}

fn create_test_function_args() -> FunctionArgs<FixedDecimal> {
    let mut call_arguments = NameMap::new();

    // String value
    call_arguments.insert("string_arg".to_string(), text("hello world"));

    // Integer value
    call_arguments.insert("int_arg".to_string(), whole(42));

    // Float value
    call_arguments.insert(
        "float_arg".to_string(),
        JsonValue::Number(JsonNumber::Float(3.14f64.to_bits())),
    );

    // Boolean value
    call_arguments.insert("bool_arg".to_string(), JsonValue::Bool(true));

    // Object value
    call_arguments.insert(
        "object_arg".to_string(),
        JsonValue::Object(vec![
            ("name".to_string(), text("test")),
            ("value".to_string(), whole(100)),
        ]),
    );

    // Array value
    call_arguments.insert(
        "array_arg".to_string(),
        JsonValue::Array(vec![whole(1), whole(2), whole(3), whole(4), whole(5)]),
    );

    call_arguments.insert("num_str_arg".to_string(), text("12345"));

    call_arguments.insert("bool_str_arg".to_string(), text("true"));

    call_arguments.insert("bool_str_arg_f".to_string(), text("false"));

    call_arguments.insert("invalid_num_str_arg".to_string(), text("not_a_number"));

    call_arguments.insert("array_str_arg".to_string(), text("[1, 2, 3]"));

    call_arguments.insert("non_existent_arg".to_string(), JsonValue::Null);

    call_arguments.insert(
        "object_str_arg".to_string(),
        text(r#"{"name": "test", "value": 100}"#),
    );

    FunctionArgs::new(NameMap::new(), NameMap::new(), call_arguments)
}

#[test]
fn test_get_call_argument_string() {
    let args = create_test_function_args();
    let result: String = args.get_call_argument("string_arg").unwrap();
    assert_eq!(result, "hello world");
}

#[test]
fn test_get_call_argument_int() {
    let args = create_test_function_args();
    let result: i32 = args.get_call_argument("int_arg").unwrap();
    assert_eq!(result, 42);
}

#[test]
fn test_get_call_argument_float() {
    let args = create_test_function_args();
    let result: Double = args.get_call_argument("float_arg").unwrap();
    assert_eq!(result.0, 3.14);
}

#[test]
fn test_get_call_argument_bool() {
    let args = create_test_function_args();
    let result: bool = args.get_call_argument("bool_arg").unwrap();
    assert_eq!(result, true);
}

#[test]
fn test_get_call_argument_object() {
    let args = create_test_function_args();
    let result: CustomStruct = args.get_call_argument("object_arg").unwrap();
    assert_eq!(
        result,
        CustomStruct {
            name: "test".to_string(),
            value: 100,
        }
    );
}

#[test]
fn test_get_call_argument_array() {
    let args = create_test_function_args();
    let result: Vec<i32> = args.get_call_argument("array_arg").unwrap();
    assert_eq!(result, vec![1, 2, 3, 4, 5]);
}

#[test]
fn test_get_call_argument_num_str() {
    let args = create_test_function_args();
    let result: String = args.get_call_argument("num_str_arg").unwrap();
    assert_eq!(result, "12345");

    let result_int: i32 = args.get_call_argument("num_str_arg").unwrap();
    assert_eq!(result_int, 12345);
}

#[test]
fn test_get_call_argument_bool_str() {
    let args = create_test_function_args();
    let result: String = args.get_call_argument("bool_str_arg").unwrap();
    let result_f: String = args.get_call_argument("bool_str_arg_f").unwrap();
    assert_eq!(result, "true");
    assert_eq!(result_f, "false");

    let result_bool: bool = args.get_call_argument("bool_str_arg").unwrap();
    assert_eq!(result_bool, true);
    let result_bool_f: bool = args.get_call_argument("bool_str_arg_f").unwrap();
    assert_eq!(result_bool_f, false);
}

#[test]
fn test_get_call_argument_invalid_num_str() {
    let args = create_test_function_args();
    let result: Result<i32, AccessError> = args.get_call_argument("invalid_num_str_arg");
    assert!(result.is_err());
    assert_eq!(result.unwrap_err().kind, ErrorKind::TypeCoercionFailed);
}

#[test]
fn test_get_call_argument_array_str() {
    let args = create_test_function_args();
    let result: Vec<i32> = args.get_call_argument("array_str_arg").unwrap();
    assert_eq!(result, vec![1, 2, 3]);
}

#[test]
fn test_get_call_argument_not_found() {
    let args = create_test_function_args();
    let result: Result<String, AccessError> = args.get_call_argument("non_existent_arg");
    assert!(result.is_err());
    assert_eq!(result.unwrap_err().kind, ErrorKind::ArgumentNotFound);
}

#[test]
fn test_get_object_str_arg() {
    let args = create_test_function_args();
    let result: CustomStruct = args.get_call_argument("object_str_arg").unwrap();
    assert_eq!(
        result,
        CustomStruct {
            name: "test".to_string(),
            value: 100,
        }
    );
}

#[test]
fn test_get_call_argument_wrong_type() {
    let args = create_test_function_args();
    let result: Result<i32, AccessError> = args.get_call_argument("string_arg");
    assert!(result.is_err());
    assert_eq!(result.unwrap_err().kind, ErrorKind::TypeCoercionFailed);
}

#[test]
fn test_non_existent_argument() {
    let args = create_test_function_args();
    let result: Result<String, AccessError> = args.get_call_argument("non_existent_arg");
    assert!(result.is_err());
}

#[test]
fn absent_name_is_not_found_and_named() {
    let args = create_test_function_args();
    let result: Result<i32, AccessError> = args.get_call_argument("never_supplied");
    let error = result.unwrap_err();
    assert_eq!(error.kind, ErrorKind::ArgumentNotFound);
    assert_eq!(error.name, "never_supplied");
    assert_eq!(error.return_code(), 4);
    assert_eq!(error.message(), "Call argument never_supplied not found");
}

#[test]
fn null_is_none_for_an_optional_target() {
    let args = create_test_function_args();
    let result: Option<i32> = args.get_call_argument("non_existent_arg").unwrap();
    assert_eq!(result, None);
    let result: Option<i32> = args.get_call_argument("int_arg").unwrap();
    assert_eq!(result, Some(42));
}

#[test]
fn failed_coercion_has_its_code_and_message() {
    let args = create_test_function_args();
    let result: Result<bool, AccessError> = args.get_call_argument("int_arg");
    let error = result.unwrap_err();
    assert_eq!(error.kind, ErrorKind::TypeCoercionFailed);
    assert_eq!(error.return_code(), 5);
    assert_eq!(error.message(), "Failed to parse call argument int_arg");
}

#[test]
fn string_target_never_reparses() {
    let args = create_test_function_args();
    let result: String = args.get_call_argument("array_str_arg").unwrap();
    assert_eq!(result, "[1, 2, 3]");
    let result: String = args.get_call_argument("invalid_num_str_arg").unwrap();
    assert_eq!(result, "not_a_number");
    let result: String = args.get_call_argument("object_str_arg").unwrap();
    assert_eq!(result, r#"{"name": "test", "value": 100}"#);
}

#[test]
fn direct_decoding_wins_over_reparsing() {
    // Text that holds JSON text: a string target gets the outer text.
    let mut call_arguments = NameMap::new();
    call_arguments.insert("quoted".to_string(), text("\"inner\""));
    let args: FunctionArgs<FixedDecimal> =
        FunctionArgs::new(NameMap::new(), NameMap::new(), call_arguments);
    let result: String = args.get_call_argument("quoted").unwrap();
    assert_eq!(result, "\"inner\"");
}

#[test]
fn untyped_target_gets_the_value_as_supplied() {
    let args = create_test_function_args();
    let result: JsonValue = args.get_call_argument("array_arg").unwrap();
    assert_eq!(
        result,
        JsonValue::Array(vec![whole(1), whole(2), whole(3), whole(4), whole(5)])
    );
    let result: JsonValue = args.get_call_argument("num_str_arg").unwrap();
    assert_eq!(result, text("12345"));
    let raw = args.get_raw_call_argument("object_arg").unwrap();
    assert_eq!(raw.field("value"), Some(&whole(100)));
    assert_eq!(raw.field("missing"), None);
    let error = args.get_raw_call_argument("never_supplied").unwrap_err();
    assert_eq!(error.kind, ErrorKind::ArgumentNotFound);
}

#[test]
fn integers_are_held_to_their_range() {
    let mut call_arguments = NameMap::new();
    call_arguments.insert("big".to_string(), whole(4_294_967_296));
    call_arguments.insert(
        "negative".to_string(),
        JsonValue::Number(JsonNumber::NegInt(-7)),
    );
    call_arguments.insert("huge".to_string(), whole(u64::MAX));
    call_arguments.insert(
        "fraction".to_string(),
        JsonValue::Number(JsonNumber::Float(1.5f64.to_bits())),
    );
    let args: FunctionArgs<FixedDecimal> =
        FunctionArgs::new(NameMap::new(), NameMap::new(), call_arguments);
    assert!(args.get_call_argument::<u32>("big").is_err());
    assert!(args.get_call_argument::<i32>("big").is_err());
    assert_eq!(args.get_call_argument::<u64>("big").unwrap(), 4_294_967_296);
    assert_eq!(args.get_call_argument::<i64>("big").unwrap(), 4_294_967_296);
    assert_eq!(args.get_call_argument::<i64>("negative").unwrap(), -7);
    assert_eq!(args.get_call_argument::<i32>("negative").unwrap(), -7);
    assert!(args.get_call_argument::<u64>("negative").is_err());
    assert!(args.get_call_argument::<u32>("negative").is_err());
    assert_eq!(args.get_call_argument::<u64>("huge").unwrap(), u64::MAX);
    assert!(args.get_call_argument::<i64>("huge").is_err());
    assert!(args.get_call_argument::<i64>("fraction").is_err());
}

#[test]
fn array_with_an_item_of_another_type_fails() {
    let mut call_arguments = NameMap::new();
    call_arguments.insert(
        "mixed".to_string(),
        JsonValue::Array(vec![whole(1), text("two")]),
    );
    call_arguments.insert("mixed_text".to_string(), text("[1, \"two\"]"));
    let args: FunctionArgs<FixedDecimal> =
        FunctionArgs::new(NameMap::new(), NameMap::new(), call_arguments);
    let error = args.get_call_argument::<Vec<i32>>("mixed").unwrap_err();
    assert_eq!(error.kind, ErrorKind::TypeCoercionFailed);
    let error = args.get_call_argument::<Vec<i32>>("mixed_text").unwrap_err();
    assert_eq!(error.kind, ErrorKind::TypeCoercionFailed);
}

#[test]
fn argument_names_are_listed_once_each() {
    let args = create_test_function_args();
    let mut names: Vec<String> = args
        .get_call_argument_names()
        .into_iter()
        .map(|name| name.clone())
        .collect();
    names.sort();
    assert_eq!(names.len(), 13);
    assert_eq!(names[0], "array_arg");
    assert_eq!(names[12], "string_arg");
    assert!(args.get_call_arguments().contains_key("bool_arg"));
    assert!(!args.get_call_arguments().contains_key("never_supplied"));
}
