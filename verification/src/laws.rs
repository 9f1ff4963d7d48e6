//! What holds of coercion and of decimal conversion on every input.
use crate::candle::{converts, parts, ToDecimal};
use crate::decimal::FixedDecimal;
use crate::decode::{coerces, decodes, decodes_each, reparses, whole_within, FromValue};
use crate::error::ErrorKind;
use crate::value::{json_parse, Json, JsonValue};
use vstd::prelude::*;

verus! {

/// A value that is not text is never reparsed: coercing it gives what
/// decoding it directly gives, and fails only where that fails.
pub proof fn law_native_value_decodes_directly<T: FromValue>(
    value: JsonValue,
    out: Result<T, ErrorKind>,
)
    requires
        !(value is Text),
        coerces(value, out),
    ensures
        match out {
            Ok(decoded) => decodes(value, Some(decoded)),
            Err(_) => decodes(value, None::<T>),
        },
{
}

/// A boolean asked for as a boolean comes back unchanged.
pub proof fn law_native_bool(value: JsonValue, b: bool, out: Result<bool, ErrorKind>)
    requires
        value@ == Json::Bool(b),
        coerces(value, out),
    ensures
        out == Ok::<bool, ErrorKind>(b),
{
}

/// A whole number asked for as an `i64` that can hold it comes back unchanged.
pub proof fn law_native_i64(value: JsonValue, n: int, out: Result<i64, ErrorKind>)
    requires
        whole_within(value@, i64::MIN as int, i64::MAX as int) == Some(n),
        coerces(value, out),
    ensures
        out == Ok::<i64, ErrorKind>(n as i64),
{
}

/// A whole number asked for as an `i32` that can hold it comes back unchanged.
pub proof fn law_native_i32(value: JsonValue, n: int, out: Result<i32, ErrorKind>)
    requires
        whole_within(value@, i32::MIN as int, i32::MAX as int) == Some(n),
        coerces(value, out),
    ensures
        out == Ok::<i32, ErrorKind>(n as i32),
{
}

/// A whole number asked for as a `u64` that can hold it comes back unchanged.
pub proof fn law_native_u64(value: JsonValue, n: int, out: Result<u64, ErrorKind>)
    requires
        whole_within(value@, 0, u64::MAX as int) == Some(n),
        coerces(value, out),
    ensures
        out == Ok::<u64, ErrorKind>(n as u64),
{
}

/// A whole number asked for as a `u32` that can hold it comes back unchanged.
pub proof fn law_native_u32(value: JsonValue, n: int, out: Result<u32, ErrorKind>)
    requires
        whole_within(value@, 0, u32::MAX as int) == Some(n),
        coerces(value, out),
    ensures
        out == Ok::<u32, ErrorKind>(n as u32),
{
}

/// An array asked for as a vector comes back item by item, each decoded directly.
pub proof fn law_native_array<U: FromValue>(value: JsonValue, out: Result<Vec<U>, ErrorKind>)
    requires
        value is Array,
        coerces(value, out),
    ensures
        out matches Ok(decoded) ==> decodes_each(value->Array_0@, decoded@),
        out matches Err(kind) ==> kind == ErrorKind::TypeCoercionFailed && exists|i: int|
            0 <= i < value->Array_0.len() && #[trigger] decodes(value->Array_0[i], None::<U>),
{
}

/// Any value asked for untyped comes back with all that it holds.
pub proof fn law_native_untyped(value: JsonValue, out: Result<JsonValue, ErrorKind>)
    requires
        coerces(value, out),
    ensures
        out matches Ok(copy) && copy@ == value@,
{
}

/// Text that does not decode directly, and that parses as JSON, comes out
/// as what it parses to decodes: same success, same value, same failure.
pub proof fn law_text_is_reparsed<T: FromValue>(value: JsonValue, out: Result<T, ErrorKind>)
    requires
        value matches JsonValue::Text(text) && json_parse(text@) is Some,
        forall|decoded: T| !decodes(value, Some(decoded)),
        coerces(value, out),
    ensures
        match out {
            Ok(decoded) => reparses(value, Some(decoded)),
            Err(kind) => kind == ErrorKind::TypeCoercionFailed && reparses(value, None::<T>),
        },
{
}

/// Text that does not decode directly and does not parse as JSON fails to coerce.
pub proof fn law_text_that_is_no_json_fails<T: FromValue>(
    value: JsonValue,
    out: Result<T, ErrorKind>,
)
    requires
        value matches JsonValue::Text(text) && json_parse(text@) is None,
        forall|decoded: T| !decodes(value, Some(decoded)),
        coerces(value, out),
    ensures
        out == Err::<T, ErrorKind>(ErrorKind::TypeCoercionFailed),
{
}

/// Text that holds a whole number, asked for as an `i64` that can hold it,
/// gives that number.
pub proof fn law_text_i64(value: JsonValue, parsed: Json, n: int, out: Result<i64, ErrorKind>)
    requires
        value matches JsonValue::Text(text) && json_parse(text@) == Some(parsed),
        whole_within(parsed, i64::MIN as int, i64::MAX as int) == Some(n),
        coerces(value, out),
    ensures
        out == Ok::<i64, ErrorKind>(n as i64),
{
}

/// Text that holds a boolean, asked for as a boolean, gives that boolean.
pub proof fn law_text_bool(value: JsonValue, b: bool, out: Result<bool, ErrorKind>)
    requires
        value matches JsonValue::Text(text) && json_parse(text@) == Some(Json::Bool(b)),
        coerces(value, out),
    ensures
        out == Ok::<bool, ErrorKind>(b),
{
}

/// Text asked for as a string comes back as it is, whatever it holds: it is
/// never reparsed.
pub proof fn law_text_as_string(value: JsonValue, out: Result<String, ErrorKind>)
    requires
        value is Text,
        coerces(value, out),
    ensures
        out matches Ok(text) && text@ == value->Text_0@,
{
}

/// Text asked for as a vector is always reparsed: the outcome is that of
/// decoding, as a vector, what the text parses to.
pub proof fn law_text_as_vector<U: FromValue>(value: JsonValue, out: Result<Vec<U>, ErrorKind>)
    requires
        value matches JsonValue::Text(text) && json_parse(text@) is Some,
        coerces(value, out),
    ensures
        match out {
            Ok(decoded) => reparses(value, Some(decoded)),
            Err(kind) => kind == ErrorKind::TypeCoercionFailed && reparses(
                value,
                None::<Vec<U>>,
            ),
        },
{
}

/// A null value asked for as a type that cannot be decoded from null counts
/// as not supplied.
pub proof fn law_null_is_not_found<T: FromValue>(value: JsonValue, out: Result<T, ErrorKind>)
    requires
        value is Null,
        forall|decoded: T| !decodes(value, Some(decoded)),
        coerces(value, out),
    ensures
        out == Err::<T, ErrorKind>(ErrorKind::ArgumentNotFound),
{
}

/// Booleans, whole numbers, strings and vectors cannot be decoded from null.
pub proof fn law_null_decodes_as_none_of_these<U: FromValue>(value: JsonValue)
    requires
        value is Null,
    ensures
        forall|decoded: bool| !decodes(value, Some(decoded)),
        forall|decoded: i32| !decodes(value, Some(decoded)),
        forall|decoded: i64| !decodes(value, Some(decoded)),
        forall|decoded: u32| !decodes(value, Some(decoded)),
        forall|decoded: u64| !decodes(value, Some(decoded)),
        forall|decoded: String| !decodes(value, Some(decoded)),
        forall|decoded: Vec<U>| !decodes(value, Some(decoded)),
{
}

/// A null value asked for as an optional type is `None`, and found.
pub proof fn law_null_as_option<U: FromValue>(value: JsonValue, out: Result<Option<U>, ErrorKind>)
    requires
        value is Null,
        coerces(value, out),
    ensures
        out == Ok::<Option<U>, ErrorKind>(None),
{
}

/// Converting is repeatable: where a raw value always has the same
/// decimal counterpart, it always comes to the same decimal at the same
/// precision.
pub proof fn law_conversion_is_repeatable<T: ToDecimal>(
    raw: T,
    precision: int,
    first: FixedDecimal,
    second: FixedDecimal,
)
    requires
        forall|a: Option<FixedDecimal>, b: Option<FixedDecimal>|
            call_ensures(T::to_decimal, (&raw,), a) && call_ensures(T::to_decimal, (&raw,), b)
                ==> parts(a) == parts(b),
        converts(raw, precision, first),
        converts(raw, precision, second),
    ensures
        first == second,
{
    FixedDecimal::lemma_equal_by_view(first, second);
}

/// A value that is a decimal already always comes to the same decimal at
/// the same precision.
pub proof fn law_decimal_conversion_is_repeatable(
    raw: FixedDecimal,
    precision: int,
    first: FixedDecimal,
    second: FixedDecimal,
)
    requires
        converts(raw, precision, first),
        converts(raw, precision, second),
    ensures
        first == second,
{
    FixedDecimal::lemma_equal_by_view(first, second);
}

} // verus!
