//! JSON values: what a graph stores of a record, and how a payload becomes one.

use vstd::prelude::*;

verus! {

/// `serde_json::Value`, a JSON value. The library builds such values and
/// carries them; it never looks inside one.
#[verifier::external_type_specification]
#[verifier::external_body]
pub struct ExValue(serde_json::Value);

/// `serde_json::Map`, the map from keys to values inside a JSON object.
#[verifier::external_type_specification]
#[verifier::external_body]
#[verifier::reject_recursive_types(K)]
#[verifier::reject_recursive_types(V)]
pub struct ExObject<K, V>(serde_json::Map<K, V>);

/// The entries of a `serde_json::Map`.
pub uninterp spec fn object_entries(object: serde_json::Map<String, serde_json::Value>) -> Map<
    Seq<char>,
    serde_json::Value,
>;

/// The JSON object with the given entries: `serde_json::Value::Object`.
pub uninterp spec fn json_object(entries: Map<Seq<char>, serde_json::Value>) -> serde_json::Value;

/// The JSON string with the given text: `serde_json::Value::String`.
pub uninterp spec fn json_string(text: Seq<char>) -> serde_json::Value;

/// The JSON array with the given items: `serde_json::Value::Array`.
pub uninterp spec fn json_array(items: Seq<serde_json::Value>) -> serde_json::Value;

/// The JSON number of a signed integer: `serde_json::Value::from` on an `i64`.
pub uninterp spec fn json_i64(n: i64) -> serde_json::Value;

/// The JSON number of an unsigned integer: `serde_json::Value::from` on a `u64`.
pub uninterp spec fn json_u64(n: u64) -> serde_json::Value;

/// The JSON value of the unit: `serde_json::Value::from` on `()`.
pub uninterp spec fn json_unit(unit: ()) -> serde_json::Value;

/// `serde_json::Map::new` returns a map without entries.
pub assume_specification[ serde_json::Map::<String, serde_json::Value>::new ]() -> (object:
    serde_json::Map<String, serde_json::Value>)
    ensures
        object_entries(object) == (Map::<Seq<char>, serde_json::Value>::empty()),
;

/// `serde_json::Map::insert` binds the key to the value, in place of the value
/// that the key had, and returns that earlier value if there was one.
pub assume_specification[ serde_json::Map::<String, serde_json::Value>::insert ](
    object: &mut serde_json::Map<String, serde_json::Value>,
    k: String,
    v: serde_json::Value,
) -> (previous: Option<serde_json::Value>)
    ensures
        object_entries(*final(object)) == object_entries(*old(object)).insert(k@, v),
        previous == (if object_entries(*old(object)).contains_key(k@) {
            Some(object_entries(*old(object))[k@])
        } else {
            None
        }),
;

/// `Clone::clone` of a `serde_json::Value` returns an equal value.
pub assume_specification[ <serde_json::Value as Clone>::clone ](value: &serde_json::Value) -> (copy:
    serde_json::Value)
    ensures
        copy == *value,
;

/// Wraps a map into a JSON object, with `serde_json::Value::Object`: the
/// object holds the entries of the map.
#[verifier::external_body]
pub(crate) fn object_value(object: serde_json::Map<String, serde_json::Value>) -> (value:
    serde_json::Value)
    ensures
        value == json_object(object_entries(object)),
{
    serde_json::Value::Object(object)
}

/// Wraps a text into a JSON string, with `serde_json::Value::String`.
#[verifier::external_body]
pub(crate) fn string_value(text: String) -> (value: serde_json::Value)
    ensures
        value == json_string(text@),
{
    serde_json::Value::String(text)
}

/// Wraps a vector of values into a JSON array, with
/// `serde_json::Value::Array`: the array holds the items in their order.
#[verifier::external_body]
pub(crate) fn array_value(items: Vec<serde_json::Value>) -> (value: serde_json::Value)
    ensures
        value == json_array(items@),
{
    serde_json::Value::Array(items)
}

/// Converts a signed integer into a JSON number, with the `From<i64>` impl of
/// `serde_json::Value`.
#[verifier::external_body]
pub(crate) fn i64_value(n: i64) -> (value: serde_json::Value)
    ensures
        value == json_i64(n),
{
    serde_json::Value::from(n)
}

/// Converts an unsigned integer into a JSON number, with the `From<u64>` impl
/// of `serde_json::Value`.
#[verifier::external_body]
pub(crate) fn u64_value(n: u64) -> (value: serde_json::Value)
    ensures
        value == json_u64(n),
{
    serde_json::Value::from(n)
}

/// Converts the unit into a JSON value, with the `From<()>` impl of
/// `serde_json::Value`.
#[verifier::external_body]
pub(crate) fn unit_value(unit: ()) -> (value: serde_json::Value)
    ensures
        value == json_unit(unit),
{
    serde_json::Value::from(unit)
}

/// The failure to turn a record, or a part of one, into a JSON value.
#[derive(Debug, Clone)]
pub struct SerializationError {
    /// What went wrong, in words.
    pub message: String,
}

impl View for SerializationError {
    type V = Seq<char>;

    open spec fn view(&self) -> Seq<char> {
        self.message@
    }
}

impl SerializationError {
    /// An error with the given message.
    pub fn new(message: String) -> (error: SerializationError)
        ensures
            error@ == message@,
    {
        SerializationError { message }
    }

    /// The message of the error.
    pub fn message(&self) -> (text: String)
        ensures
            text@ == self@,
    {
        self.message.clone()
    }
}

/// A result with its error, if any, taken by its view.
pub open spec fn outcome<A>(result: Result<A, SerializationError>) -> Result<A, Seq<char>> {
    match result {
        Ok(value) => Ok(value),
        Err(error) => Err(error@),
    }
}

/// Whether the result is the success with the given value.
pub open spec fn succeeds_with<A>(result: Result<A, Seq<char>>, value: A) -> bool {
    result == Ok::<A, Seq<char>>(value)
}

/// Whether the result is the failure with the given message.
pub open spec fn fails_with<A>(result: Result<A, Seq<char>>, message: Seq<char>) -> bool {
    result == Err::<A, Seq<char>>(message)
}

/// A value that has a JSON form, or fails to have one in a stable way.
///
/// Variants, primary keys and props are stored in a graph by their JSON form.
pub trait ToJson {
    /// The JSON form of the value, or the message of the failure to give one.
    /// As provided it is left open: an implementor states it.
    open spec fn json(&self) -> Result<serde_json::Value, Seq<char>> {
        arbitrary()
    }

    /// Converts the value to its JSON form.
    fn to_json(&self) -> (result: Result<serde_json::Value, SerializationError>)
        ensures
            outcome(result) == self.json(),
    ;
}

impl ToJson for serde_json::Value {
    open spec fn json(&self) -> Result<serde_json::Value, Seq<char>> {
        Ok(*self)
    }

    fn to_json(&self) -> (result: Result<serde_json::Value, SerializationError>) {
        Ok(self.clone())
    }
}

impl ToJson for () {
    open spec fn json(&self) -> Result<serde_json::Value, Seq<char>> {
        Ok(json_unit(*self))
    }

    fn to_json(&self) -> (result: Result<serde_json::Value, SerializationError>) {
        Ok(unit_value(*self))
    }
}

impl ToJson for String {
    open spec fn json(&self) -> Result<serde_json::Value, Seq<char>> {
        Ok(json_string(self@))
    }

    fn to_json(&self) -> (result: Result<serde_json::Value, SerializationError>) {
        Ok(string_value(self.clone()))
    }
}

impl<'a> ToJson for &'a str {
    open spec fn json(&self) -> Result<serde_json::Value, Seq<char>> {
        Ok(json_string(self@))
    }

    fn to_json(&self) -> (result: Result<serde_json::Value, SerializationError>) {
        Ok(string_value((*self).to_owned()))
    }
}

/// The JSON form of a pair: the array of the JSON forms of its two parts, or
/// the failure of the first part that fails.
pub open spec fn pair_json(first: Result<serde_json::Value, Seq<char>>, second: Result<
    serde_json::Value,
    Seq<char>,
>) -> Result<serde_json::Value, Seq<char>> {
    match first {
        Err(message) => Err(message),
        Ok(a) => match second {
            Err(message) => Err(message),
            Ok(b) => Ok(json_array(seq![a, b])),
        },
    }
}

impl<A: ToJson, B: ToJson> ToJson for (A, B) {
    open spec fn json(&self) -> Result<serde_json::Value, Seq<char>> {
        pair_json(self.0.json(), self.1.json())
    }

    fn to_json(&self) -> (result: Result<serde_json::Value, SerializationError>) {
        match self.0.to_json() {
            Err(error) => Err(error),
            Ok(a) => match self.1.to_json() {
                Err(error) => Err(error),
                Ok(b) => {
                    let mut items: Vec<serde_json::Value> = Vec::new();
                    items.push(a);
                    items.push(b);
                    assert(items@ =~= seq![a, b]);
                    Ok(array_value(items))
                },
            },
        }
    }
}

impl ToJson for i8 {
    open spec fn json(&self) -> Result<serde_json::Value, Seq<char>> {
        Ok(json_i64(*self as i64))
    }

    fn to_json(&self) -> (result: Result<serde_json::Value, SerializationError>) {
        Ok(i64_value(*self as i64))
    }
}

impl ToJson for i16 {
    open spec fn json(&self) -> Result<serde_json::Value, Seq<char>> {
        Ok(json_i64(*self as i64))
    }

    fn to_json(&self) -> (result: Result<serde_json::Value, SerializationError>) {
        Ok(i64_value(*self as i64))
    }
}

impl ToJson for i32 {
    open spec fn json(&self) -> Result<serde_json::Value, Seq<char>> {
        Ok(json_i64(*self as i64))
    }

    fn to_json(&self) -> (result: Result<serde_json::Value, SerializationError>) {
        Ok(i64_value(*self as i64))
    }
}

impl ToJson for i64 {
    open spec fn json(&self) -> Result<serde_json::Value, Seq<char>> {
        Ok(json_i64(*self))
    }

    fn to_json(&self) -> (result: Result<serde_json::Value, SerializationError>) {
        Ok(i64_value(*self))
    }
}

impl ToJson for isize {
    open spec fn json(&self) -> Result<serde_json::Value, Seq<char>> {
        Ok(json_i64(*self as i64))
    }

    fn to_json(&self) -> (result: Result<serde_json::Value, SerializationError>) {
        Ok(i64_value(*self as i64))
    }
}

impl ToJson for u8 {
    open spec fn json(&self) -> Result<serde_json::Value, Seq<char>> {
        Ok(json_u64(*self as u64))
    }

    fn to_json(&self) -> (result: Result<serde_json::Value, SerializationError>) {
        Ok(u64_value(*self as u64))
    }
}

impl ToJson for u16 {
    open spec fn json(&self) -> Result<serde_json::Value, Seq<char>> {
        Ok(json_u64(*self as u64))
    }

    fn to_json(&self) -> (result: Result<serde_json::Value, SerializationError>) {
        Ok(u64_value(*self as u64))
    }
}

impl ToJson for u32 {
    open spec fn json(&self) -> Result<serde_json::Value, Seq<char>> {
        Ok(json_u64(*self as u64))
    }

    fn to_json(&self) -> (result: Result<serde_json::Value, SerializationError>) {
        Ok(u64_value(*self as u64))
    }
}

impl ToJson for u64 {
    open spec fn json(&self) -> Result<serde_json::Value, Seq<char>> {
        Ok(json_u64(*self))
    }

    fn to_json(&self) -> (result: Result<serde_json::Value, SerializationError>) {
        Ok(u64_value(*self))
    }
}

impl ToJson for usize {
    open spec fn json(&self) -> Result<serde_json::Value, Seq<char>> {
        Ok(json_u64(*self as u64))
    }

    fn to_json(&self) -> (result: Result<serde_json::Value, SerializationError>) {
        Ok(u64_value(*self as u64))
    }
}

} // verus!
