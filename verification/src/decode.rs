//! Decoding an untyped value as a requested type, directly or through the
//! JSON that its text holds.
use crate::error::ErrorKind;
use crate::value::{json_parse, parse_json, Json, JsonNumber, JsonValue};
use vstd::prelude::*;

verus! {

/// A type that can be decoded from an untyped value.
pub trait FromValue: Sized {
    /// `value` as `Self`, or `None` where it is no such thing.
    fn from_value(value: &JsonValue) -> Option<Self>;
}

/// `out` is a possible outcome of decoding `value` directly as `T`.
pub open spec fn decodes<T: FromValue>(value: JsonValue, out: Option<T>) -> bool {
    call_ensures(T::from_value, (&value,), out)
}

/// The whole number that a value is, if it is one.
pub open spec fn whole(value: Json) -> Option<int> {
    match value {
        Json::Number(JsonNumber::PosInt(n)) => Some(n as int),
        Json::Number(JsonNumber::NegInt(n)) => Some(n as int),
        _ => None,
    }
}

/// The whole number that a value is, if it is one from `low` to `high`.
pub open spec fn whole_within(value: Json, low: int, high: int) -> Option<int> {
    match whole(value) {
        Some(n) => if low <= n <= high {
            Some(n)
        } else {
            None
        },
        None => None,
    }
}

impl FromValue for bool {
    fn from_value(value: &JsonValue) -> (out: Option<bool>)
        ensures
            out == (match value@ {
                Json::Bool(b) => Some(b),
                _ => None,
            }),
    {
        match value {
            JsonValue::Bool(b) => Some(*b),
            _ => None,
        }
    }
}

impl FromValue for u64 {
    fn from_value(value: &JsonValue) -> (out: Option<u64>)
        ensures
            out == (match whole_within(value@, 0, u64::MAX as int) {
                Some(n) => Some(n as u64),
                None => None,
            }),
    {
        match value {
            JsonValue::Number(JsonNumber::PosInt(n)) => Some(*n),
            JsonValue::Number(JsonNumber::NegInt(n)) => if *n >= 0 {
                Some(*n as u64)
            } else {
                None
            },
            _ => None,
        }
    }
}

impl FromValue for i64 {
    fn from_value(value: &JsonValue) -> (out: Option<i64>)
        ensures
            out == (match whole_within(value@, i64::MIN as int, i64::MAX as int) {
                Some(n) => Some(n as i64),
                None => None,
            }),
    {
        match value {
            JsonValue::Number(JsonNumber::PosInt(n)) => if *n <= 0x7fff_ffff_ffff_ffff {
                Some(*n as i64)
            } else {
                None
            },
            JsonValue::Number(JsonNumber::NegInt(n)) => Some(*n),
            _ => None,
        }
    }
}

impl FromValue for u32 {
    fn from_value(value: &JsonValue) -> (out: Option<u32>)
        ensures
            out == (match whole_within(value@, 0, u32::MAX as int) {
                Some(n) => Some(n as u32),
                None => None,
            }),
    {
        match u64::from_value(value) {
            Some(n) => if n <= 0xffff_ffff {
                Some(n as u32)
            } else {
                None
            },
            None => None,
        }
    }
}

impl FromValue for i32 {
    fn from_value(value: &JsonValue) -> (out: Option<i32>)
        ensures
            out == (match whole_within(value@, i32::MIN as int, i32::MAX as int) {
                Some(n) => Some(n as i32),
                None => None,
            }),
    {
        match i64::from_value(value) {
            Some(n) => if -0x8000_0000 <= n && n <= 0x7fff_ffff {
                Some(n as i32)
            } else {
                None
            },
            None => None,
        }
    }
}

impl FromValue for String {
    fn from_value(value: &JsonValue) -> (out: Option<String>)
        ensures
            match value@ {
                Json::Text(text) => out matches Some(s) && s@ == text,
                _ => out is None,
            },
    {
        match value {
            JsonValue::Text(s) => Some(s.clone()),
            _ => None,
        }
    }
}

impl FromValue for JsonValue {
    fn from_value(value: &JsonValue) -> (out: Option<JsonValue>)
        ensures
            out matches Some(copy) && copy@ == value@,
    {
        Some(value.duplicate())
    }
}

/// `out` holds a decoding of each of `items`, in their order.
pub open spec fn decodes_each<T: FromValue>(items: Seq<JsonValue>, out: Seq<T>) -> bool {
    &&& out.len() == items.len()
    &&& forall|i: int| 0 <= i < items.len() ==> decodes(items[i], Some(#[trigger] out[i]))
}

impl<T: FromValue> FromValue for Vec<T> {
    fn from_value(value: &JsonValue) -> (out: Option<Vec<T>>)
        ensures
            match out {
                Some(decoded) => *value is Array && decodes_each(value->Array_0@, decoded@),
                None => *value is Array ==> exists|i: int|
                    0 <= i < value->Array_0.len() && #[trigger] decodes(
                        value->Array_0[i],
                        None::<T>,
                    ),
            },
    {
        match value {
            JsonValue::Array(items) => {
                let mut decoded: Vec<T> = Vec::new();
                let mut i: usize = 0;
                while i < items.len()
                    invariant
                        i <= items.len(),
                        decoded.len() == i,
                        *value == JsonValue::Array(*items),
                        forall|j: int| 0 <= j < i ==> decodes(items[j], Some(#[trigger] decoded[j])),
                    decreases items.len() - i,
                {
                    match T::from_value(&items[i]) {
                        Some(item) => {
                            decoded.push(item);
                        },
                        None => {
                            assert(value->Array_0 == *items);
                            assert(decodes(value->Array_0[i as int], None::<T>));
                            return None;
                        },
                    }
                    i += 1;
                }
                Some(decoded)
            },
            _ => None,
        }
    }
}

impl<T: FromValue> FromValue for Option<T> {
    fn from_value(value: &JsonValue) -> (out: Option<Option<T>>)
        ensures
            match out {
                Some(None) => *value is Null,
                Some(Some(inner)) => !(*value is Null) && decodes(*value, Some(inner)),
                None => !(*value is Null) && decodes(*value, None::<T>),
            },
    {
        match value {
            JsonValue::Null => Some(None),
            _ => match T::from_value(value) {
                Some(inner) => Some(Some(inner)),
                None => None,
            },
        }
    }
}

/// `out` is a possible outcome of the second stage on `value`: `value` is
/// text, the text parses as JSON, and `out` is a decoding of what it parses to.
pub open spec fn reparses<T: FromValue>(value: JsonValue, out: Option<T>) -> bool {
    value matches JsonValue::Text(text) && exists|parsed: JsonValue|
        json_parse(text@) == Some(parsed@) && #[trigger] decodes(parsed, out)
}

/// `out` is a possible outcome of coercing `value` to `T`.
///
/// A direct decoding wins. Where there is none, a null value counts as not
/// supplied, text is given a second chance through the JSON it holds, and
/// everything else has failed to coerce.
pub open spec fn coerces<T: FromValue>(value: JsonValue, out: Result<T, ErrorKind>) -> bool {
    match out {
        Ok(decoded) => decodes(value, Some(decoded)) || (decodes(value, None::<T>) && reparses(
            value,
            Some(decoded),
        )),
        Err(kind) => decodes(value, None::<T>) && match value {
            JsonValue::Null => kind == ErrorKind::ArgumentNotFound,
            JsonValue::Text(text) => kind == ErrorKind::TypeCoercionFailed && (json_parse(text@)
                is None || reparses(value, None::<T>)),
            _ => kind == ErrorKind::TypeCoercionFailed,
        },
    }
}

/// The second stage, given what the text parsed to: a decoding of that
/// value, and a failed coercion where the text did not parse or what it
/// parsed to does not decode.
pub fn decode_reparsed<T: FromValue>(parsed: Option<JsonValue>) -> (out: Result<T, ErrorKind>)
    ensures
        match parsed {
            Some(value) => match out {
                Ok(decoded) => decodes(value, Some(decoded)),
                Err(kind) => kind == ErrorKind::TypeCoercionFailed && decodes(value, None::<T>),
            },
            None => out == Err::<T, ErrorKind>(ErrorKind::TypeCoercionFailed),
        },
{
    match parsed {
        Some(value) => match T::from_value(&value) {
            Some(decoded) => Ok(decoded),
            None => Err(ErrorKind::TypeCoercionFailed),
        },
        None => Err(ErrorKind::TypeCoercionFailed),
    }
}

/// `value` as `T`: decoded directly where that succeeds, else, where it is
/// text, decoded from the JSON that the text holds.
pub fn coerce<T: FromValue>(value: &JsonValue) -> (out: Result<T, ErrorKind>)
    ensures
        coerces(*value, out),
{
    match T::from_value(value) {
        Some(decoded) => Ok(decoded),
        None => match value {
            JsonValue::Null => Err(ErrorKind::ArgumentNotFound),
            JsonValue::Text(text) => {
                let parsed = parse_json(text.as_str());
                let ghost held = parsed;
                let out = decode_reparsed::<T>(parsed);
                proof {
                    if let Some(reparsed) = held {
                        assert(decodes(
                            reparsed,
                            match out {
                                Ok(decoded) => Some(decoded),
                                Err(_) => None,
                            },
                        ));
                    }
                }
                out
            },
            _ => Err(ErrorKind::TypeCoercionFailed),
        },
    }
}

} // verus!
