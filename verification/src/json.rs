//! JSON values: the `serde_json` calls that the library makes.

use vstd::prelude::*;

verus! {

/// A JSON value.
pub enum Json {
    Null,
    Bool(bool),
    /// An integer that is not negative.
    Unsigned(u64),
    /// A negative integer.
    Negative(i64),
    /// Any other number, by its text.
    Other(Seq<char>),
    Text(Seq<char>),
    Array(Seq<Json>),
    Object(Map<Seq<char>, Json>),
}

impl Json {
    /// The value under a key, if this is an object that has the key.
    pub open spec fn field(self, key: Seq<char>) -> Option<Json> {
        match self {
            Json::Object(fields) => if fields.dom().contains(key) {
                Some(fields[key])
            } else {
                None
            },
            _ => None,
        }
    }

    /// The text, if this is one.
    pub open spec fn as_text(self) -> Option<Seq<char>> {
        match self {
            Json::Text(text) => Some(text),
            _ => None,
        }
    }

    /// The number, if this is an integer that is not negative.
    pub open spec fn as_unsigned(self) -> Option<u64> {
        match self {
            Json::Unsigned(n) => Some(n),
            _ => None,
        }
    }

    /// The fields to which a key can be added: those of an object, or none at all for null.
    pub open spec fn open_fields(self) -> Map<Seq<char>, Json> {
        match self {
            Json::Object(fields) => fields,
            _ => Map::empty(),
        }
    }

    /// The value with one field set; null becomes an object.
    pub open spec fn with_field(self, key: Seq<char>, value: Json) -> Json {
        Json::Object(self.open_fields().insert(key, value))
    }

    /// Whether a key can be added.
    pub open spec fn takes_fields(self) -> bool {
        self is Object || self is Null
    }
}

/// The value under a key, or null where there is none.
pub open spec fn field_or_null(value: Json, key: Seq<char>) -> Json {
    match value.field(key) {
        Some(v) => v,
        None => Json::Null,
    }
}

/// A JSON value of the `serde_json` crate.
#[verifier::external_type_specification]
#[verifier::external_body]
pub struct ExJsonValue(serde_json::Value);

/// What a `serde_json` value holds.
pub uninterp spec fn json_of(value: serde_json::Value) -> Json;

/// What a sequence of `serde_json` values holds.
pub open spec fn jsons_of(values: Seq<serde_json::Value>) -> Seq<Json> {
    Seq::new(values.len(), |i: int| json_of(values[i]))
}

/// The value that a JSON text stands for, or the words of the refusal.
pub uninterp spec fn json_reading(text: Seq<char>) -> Result<Json, Seq<char>>;

/// The text that is written for a value.
pub uninterp spec fn json_text(value: Json) -> Seq<char>;

/// The indented text that is written for a value.
pub uninterp spec fn json_pretty_text(value: Json) -> Seq<char>;

/// Whether a value nests arrays and objects less than `depth` deep and, where `whole` is set, holds
/// integer numbers only.
pub open spec fn nests(value: Json, depth: nat, whole: bool) -> bool
    decreases depth,
{
    match value {
        Json::Negative(n) => n < 0,
        Json::Other(_) => !whole,
        Json::Array(items) => depth > 1 && forall|i: int|
            0 <= i < items.len() ==> nests(#[trigger] items[i], (depth - 1) as nat, whole),
        Json::Object(fields) => depth > 1 && fields.dom().finite() && forall|key: Seq<char>|
            #[trigger] fields.dom().contains(key) ==> nests(fields[key], (depth - 1) as nat, whole),
        _ => true,
    }
}

/// Whether a value is within the limit that the reader sets on nesting.
pub open spec fn is_readable(value: Json) -> bool {
    nests(value, 128, false)
}

/// Whether a value is read back as it was written: it holds integer numbers only, and the limit that
/// the reader sets on nesting does not stop it.
pub open spec fn reads_back(value: Json) -> bool {
    nests(value, 128, true)
}

/// Whether two values differ in fractional numbers at most, down to a depth.
pub open spec fn alike(a: Json, b: Json, depth: nat) -> bool
    decreases depth,
{
    depth == 0 || match (a, b) {
        (Json::Other(_), Json::Other(_)) => true,
        (Json::Array(x), Json::Array(y)) => x.len() == y.len() && forall|i: int|
            0 <= i < x.len() ==> alike(#[trigger] x[i], y[i], (depth - 1) as nat),
        (Json::Object(x), Json::Object(y)) => x.dom() == y.dom() && forall|key: Seq<char>|
            #[trigger] x.dom().contains(key) ==> alike(x[key], y[key], (depth - 1) as nat),
        _ => a == b,
    }
}

/// Whether two values differ in fractional numbers at most.
pub open spec fn same_but_fractions(a: Json, b: Json) -> bool {
    forall|depth: nat| #[trigger] alike(a, b, depth)
}

/// Reads a JSON text with `serde_json::from_str`.
///
/// What is read depends on the text alone, and is within the limit on nesting. A text that was
/// written for a value within that limit is read: where the value holds integer numbers only, it
/// comes back as it was, and else it comes back with fractional numbers in the same places. Numbers
/// are written with the fewest digits that tell them apart, and the reader stays finite on all of
/// those; that the last digit of a fraction survives is not claimed.
#[verifier::external_body]
pub(crate) fn parse_json(text: &str) -> (r: Result<serde_json::Value, String>)
    ensures
        match json_reading(text@) {
            Ok(value) => r matches Ok(v) && json_of(v) == value,
            Err(words) => r matches Err(e) && e@ == words,
        },
        r is Ok ==> is_readable(json_of(r->Ok_0)),
        forall|value: Json|
            reads_back(value) && text@ == #[trigger] json_text(value) ==> r is Ok && json_of(
                r->Ok_0,
            ) == value,
        forall|value: Json|
            reads_back(value) && text@ == #[trigger] json_pretty_text(value) ==> r is Ok && json_of(
                r->Ok_0,
            ) == value,
        forall|value: Json|
            is_readable(value) && text@ == #[trigger] json_text(value) ==> r is Ok
                && same_but_fractions(json_of(r->Ok_0), value),
        forall|value: Json|
            is_readable(value) && text@ == #[trigger] json_pretty_text(value) ==> r is Ok
                && same_but_fractions(json_of(r->Ok_0), value),
{
    serde_json::from_str(text).map_err(|e| e.to_string())
}

/// Writes a value with `serde_json::to_string`.
///
/// The text depends on what the value holds alone; objects are written in the order of their keys.
/// Writing to a string does not fail.
#[verifier::external_body]
pub(crate) fn write_json(value: &serde_json::Value) -> (r: Result<String, String>)
    ensures
        r is Ok,
        r->Ok_0@ == json_text(json_of(*value)),
{
    serde_json::to_string(value).map_err(|e| e.to_string())
}

/// Writes a value with `serde_json::to_string_pretty`.
///
/// The text depends on what the value holds alone. Writing to a string does not fail.
#[verifier::external_body]
pub(crate) fn write_json_pretty(value: &serde_json::Value) -> (r: Result<String, String>)
    ensures
        r is Ok,
        r->Ok_0@ == json_pretty_text(json_of(*value)),
{
    serde_json::to_string_pretty(value).map_err(|e| e.to_string())
}

/// Looks a key up with `serde_json::Value::get`, which finds nothing in what is not an object.
#[verifier::external_body]
pub(crate) fn json_get<'a>(value: &'a serde_json::Value, key: &str) -> (r: Option<
    &'a serde_json::Value,
>)
    ensures
        match json_of(*value).field(key@) {
            Some(v) => r matches Some(found) && json_of(*found) == v,
            None => r is None,
        },
{
    value.get(key)
}

/// Takes the text of a value with `serde_json::Value::as_str`.
#[verifier::external_body]
pub(crate) fn json_as_str<'a>(value: &'a serde_json::Value) -> (r: Option<&'a str>)
    ensures
        match json_of(*value).as_text() {
            Some(text) => r matches Some(s) && s@ == text,
            None => r is None,
        },
{
    value.as_str()
}

/// Takes the number of a value with `serde_json::Value::as_u64`.
#[verifier::external_body]
pub(crate) fn json_as_u64(value: &serde_json::Value) -> (r: Option<u64>)
    ensures
        r == json_of(*value).as_unsigned(),
{
    value.as_u64()
}

/// Asks whether a value is an object with `serde_json::Value::is_object`.
#[verifier::external_body]
pub(crate) fn json_is_object(value: &serde_json::Value) -> (r: bool)
    ensures
        r == (json_of(*value) is Object),
{
    value.is_object()
}

/// Asks whether a value is null with `serde_json::Value::is_null`.
#[verifier::external_body]
pub(crate) fn json_is_null(value: &serde_json::Value) -> (r: bool)
    ensures
        r == (json_of(*value) is Null),
{
    value.is_null()
}

/// Borrows the items of an array with `serde_json::Value::as_array`.
#[verifier::external_body]
pub(crate) fn json_items<'a>(value: &'a serde_json::Value) -> (r: Option<
    &'a Vec<serde_json::Value>,
>)
    ensures
        match json_of(*value) {
            Json::Array(items) => r matches Some(v) && jsons_of(v@) == items,
            _ => r is None,
        },
{
    value.as_array()
}

/// Borrows the items of an array for change with `serde_json::Value::as_array_mut`.
///
/// What the items become, the array becomes; what is not an array stays as it is.
#[verifier::external_body]
pub(crate) fn json_items_mut<'a>(value: &'a mut serde_json::Value) -> (r: Option<
    &'a mut Vec<serde_json::Value>,
>)
    ensures
        match json_of(*old(value)) {
            Json::Array(items) => r is Some && jsons_of((*r->Some_0)@) == items && json_of(
                *final(value),
            ) == Json::Array(jsons_of((*final(r->Some_0))@)),
            _ => r is None && json_of(*final(value)) == json_of(*old(value)),
        },
{
    value.as_array_mut()
}

/// Borrows the value under a key for change with `IndexMut` of `serde_json::Value`.
///
/// A key that is absent is added with null, and null is taken for an empty object. On any other
/// value the call would panic.
#[verifier::external_body]
pub(crate) fn json_slot<'a>(value: &'a mut serde_json::Value, key: &str) -> (r:
    &'a mut serde_json::Value)
    requires
        json_of(*old(value)).takes_fields(),
    ensures
        json_of(*r) == field_or_null(json_of(*old(value)), key@),
        json_of(*final(value)) == json_of(*old(value)).with_field(key@, json_of(*final(r))),
{
    &mut value[key]
}

/// The value null, `serde_json::Value::Null`.
#[verifier::external_body]
pub(crate) fn json_null() -> (r: serde_json::Value)
    ensures
        json_of(r) == Json::Null,
{
    serde_json::Value::Null
}

/// An array, `serde_json::Value::Array`.
#[verifier::external_body]
pub(crate) fn json_array(items: Vec<serde_json::Value>) -> (r: serde_json::Value)
    ensures
        json_of(r) == Json::Array(jsons_of(items@)),
{
    serde_json::Value::Array(items)
}

/// A text, `serde_json::Value::String`.
#[verifier::external_body]
pub(crate) fn json_string(text: String) -> (r: serde_json::Value)
    ensures
        json_of(r) == Json::Text(text@),
{
    serde_json::Value::String(text)
}

/// A number, `serde_json::Value::Number`.
#[verifier::external_body]
pub(crate) fn json_number(n: u64) -> (r: serde_json::Value)
    ensures
        json_of(r) == Json::Unsigned(n),
{
    serde_json::Value::Number(n.into())
}

} // verus!
