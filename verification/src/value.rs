//! Untyped call-argument values and their mathematical model.
use vstd::prelude::*;

verus! {

/// A number as it arrives: whole and not negative, whole and negative, or a
/// finite double given by its IEEE-754 bits.
#[derive(Clone, Copy, Debug, PartialEq, Eq, Structural)]
pub enum JsonNumber {
    PosInt(u64),
    NegInt(i64),
    Float(u64),
}

/// An untyped value: null, a boolean, a number, text, a sequence of values,
/// or fields, each a name and a value, in the order they were given in.
#[derive(Debug, PartialEq)]
pub enum JsonValue {
    Null,
    Bool(bool),
    Number(JsonNumber),
    Text(String),
    Array(Vec<JsonValue>),
    Object(Vec<(String, JsonValue)>),
}

/// What a [`JsonValue`] holds, as mathematics.
pub enum Json {
    Null,
    Bool(bool),
    Number(JsonNumber),
    Text(Seq<char>),
    Array(Seq<Json>),
    Object(Seq<(Seq<char>, Json)>),
}

impl View for JsonValue {
    type V = Json;

    open spec fn view(&self) -> Json
        decreases self,
    {
        match self {
            JsonValue::Null => Json::Null,
            JsonValue::Bool(b) => Json::Bool(*b),
            JsonValue::Number(n) => Json::Number(*n),
            JsonValue::Text(s) => Json::Text(s@),
            JsonValue::Array(items) => Json::Array(
                Seq::new(
                    items.len() as nat,
                    |i: int|
                        if 0 <= i < items.len() {
                            items[i]@
                        } else {
                            Json::Null
                        },
                ),
            ),
            JsonValue::Object(fields) => Json::Object(
                Seq::new(
                    fields.len() as nat,
                    |i: int|
                        if 0 <= i < fields.len() {
                            (fields[i].0@, fields[i].1@)
                        } else {
                            (Seq::empty(), Json::Null)
                        },
                ),
            ),
        }
    }
}

/// `i` is the place of the first field of `fields` that is called `name`.
pub open spec fn first_named(fields: Seq<(String, JsonValue)>, name: Seq<char>, i: int) -> bool {
    &&& 0 <= i < fields.len()
    &&& fields[i].0@ == name
    &&& forall|j: int| 0 <= j < i ==> fields[j].0@ != name
}

impl JsonValue {
    /// The text of a textual value.
    pub fn as_str(&self) -> (text: Option<&str>)
        ensures
            match *self {
                JsonValue::Text(s) => text matches Some(t) && t@ == s@,
                _ => text is None,
            },
    {
        match self {
            JsonValue::Text(s) => Some(s.as_str()),
            _ => None,
        }
    }

    /// Whether this is the null value.
    pub fn is_null(&self) -> (null: bool)
        ensures
            null == (*self is Null),
    {
        match self {
            JsonValue::Null => true,
            _ => false,
        }
    }

    /// This is an object, and `value` is that of its first field called `name`.
    pub open spec fn has_field(&self, name: Seq<char>, value: JsonValue) -> bool {
        match *self {
            JsonValue::Object(fields) => exists|i: int| #[trigger]
                first_named(fields@, name, i) && value == fields[i].1,
            _ => false,
        }
    }

    /// The value of the first field called `name` of an object.
    pub fn field(&self, name: &str) -> (found: Option<&JsonValue>)
        ensures
            match found {
                Some(value) => self.has_field(name@, *value),
                None => self matches JsonValue::Object(fields) ==> forall|i: int|
                    0 <= i < fields.len() ==> fields[i].0@ != name@,
            },
    {
        match self {
            JsonValue::Object(fields) => {
                let key = name.to_owned();
                let mut i: usize = 0;
                while i < fields.len()
                    invariant
                        i <= fields.len(),
                        key@ == name@,
                        *self == JsonValue::Object(*fields),
                        forall|j: int| 0 <= j < i ==> fields[j].0@ != name@,
                    decreases fields.len() - i,
                {
                    if fields[i].0 == key {
                        assert(first_named(self->Object_0@, name@, i as int));
                        return Some(&fields[i].1);
                    }
                    i += 1;
                }
                None
            },
            _ => None,
        }
    }

    /// A copy of this value, equal to it in all it holds.
    pub fn duplicate(&self) -> (copy: JsonValue)
        ensures
            copy@ == self@,
        decreases self,
    {
        match self {
            JsonValue::Null => JsonValue::Null,
            JsonValue::Bool(b) => JsonValue::Bool(*b),
            JsonValue::Number(n) => JsonValue::Number(*n),
            JsonValue::Text(s) => JsonValue::Text(s.clone()),
            JsonValue::Array(items) => {
                let mut out: Vec<JsonValue> = Vec::new();
                let mut i: usize = 0;
                while i < items.len()
                    invariant
                        i <= items.len(),
                        out.len() == i,
                        forall|j: int| 0 <= j < i ==> out[j]@ == items[j]@,
                        *self == JsonValue::Array(*items),
                    decreases items.len() - i,
                {
                    proof {
                        assert(decreases_to!(self => self->Array_0));
                        assert(decreases_to!(items => items[i as int]));
                    }
                    out.push(items[i].duplicate());
                    i += 1;
                }
                let copy = JsonValue::Array(out);
                assert(copy@->Array_0 =~= self@->Array_0);
                copy
            },
            JsonValue::Object(fields) => {
                let mut out: Vec<(String, JsonValue)> = Vec::new();
                let mut i: usize = 0;
                while i < fields.len()
                    invariant
                        i <= fields.len(),
                        out.len() == i,
                        forall|j: int|
                            0 <= j < i ==> out[j].0@ == fields[j].0@ && out[j].1@ == fields[j].1@,
                        *self == JsonValue::Object(*fields),
                    decreases fields.len() - i,
                {
                    proof {
                        assert(decreases_to!(self => self->Object_0));
                        assert(decreases_to!(fields => fields[i as int]));
                        assert(decreases_to!(fields[i as int] => fields[i as int].1));
                    }
                    out.push((fields[i].0.clone(), fields[i].1.duplicate()));
                    i += 1;
                }
                let copy = JsonValue::Object(out);
                assert(copy@->Object_0 =~= self@->Object_0);
                copy
            },
        }
    }
}

/// `serde_json::Value`, the form in which `serde_json` hands out what it parsed.
/// Nothing is known of what a value of it holds.
#[verifier::external_type_specification]
#[verifier::external_body]
pub struct ExParsedValue(serde_json::Value);

/// `serde_json::Number`, the number inside a parsed value. Nothing is known
/// of what a value of it holds.
#[verifier::external_type_specification]
#[verifier::external_body]
pub struct ExParsedNumber(serde_json::Number);

/// What `serde_json::from_str` makes of a text: the model of the value it
/// parses to, or `None` where it reports an error.
pub uninterp spec fn json_parse(text: Seq<char>) -> Option<Json>;

/// Reads a `serde_json::Number` through its accessors `as_u64`, `as_i64` and
/// `as_f64`, trying them in that order, and keeps what the first to answer
/// gave; a double is kept by its bits. Nothing is claimed of the result.
#[verifier::external_body]
fn lift_number(number: &serde_json::Number) -> JsonNumber {
    if let Some(u) = number.as_u64() {
        JsonNumber::PosInt(u)
    } else if let Some(i) = number.as_i64() {
        JsonNumber::NegInt(i)
    } else {
        JsonNumber::Float(number.as_f64().map_or(0, |x| x.to_bits()))
    }
}

/// Rebuilds a `serde_json::Value` as a [`JsonValue`], variant for variant, the
/// items of an array and the fields of an object in the order in which
/// `serde_json` walks them. Nothing is claimed of the result.
#[verifier::external_body]
fn lift(parsed: serde_json::Value) -> JsonValue {
    match parsed {
        serde_json::Value::Null => JsonValue::Null,
        serde_json::Value::Bool(b) => JsonValue::Bool(b),
        serde_json::Value::Number(n) => JsonValue::Number(lift_number(&n)),
        serde_json::Value::String(s) => JsonValue::Text(s),
        serde_json::Value::Array(items) => JsonValue::Array(items.into_iter().map(lift).collect()),
        serde_json::Value::Object(fields) => JsonValue::Object(
            fields.into_iter().map(|(name, value)| (name, lift(value))).collect(),
        ),
    }
}

/// Calls `serde_json::from_str` for a `serde_json::Value`. The contract
/// claims that the outcome is a function of the text alone, named
/// [`json_parse`]: the value's model where the text parsed, `None` where
/// `serde_json` reported an error.
#[verifier::external_body]
pub(crate) fn parse_json(text: &str) -> (parsed: Option<JsonValue>)
    ensures
        match parsed {
            Some(value) => json_parse(text@) == Some(value@),
            None => json_parse(text@) is None,
        },
{
    match serde_json::from_str::<serde_json::Value>(text) {
        Ok(value) => Some(lift(value)),
        Err(_) => None,
    }
}

} // verus!
