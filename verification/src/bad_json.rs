//! The backend is loose with its JSON: a value that should be a string comes as a number,
//! a location that is not there comes as a number or a list. These readers take what
//! comes and give the value that was meant.

use crate::inventory::{location_spec, Location};
use crate::json::{optional_text, text_result_is, Json, JsonValue};
use crate::text::{decimal, i64_to_decimal, signed_decimal, u64_to_decimal};
use crate::Error;
use vstd::prelude::*;

verus! {

/// The text of a value that is a string or a number: the string itself, or the number as
/// it is written. Anything else is rejected with [`Error::Json`].
pub open spec fn integer_to_string_spec(json: JsonValue) -> Result<Seq<char>, Error> {
    match json {
        JsonValue::Unsigned(n) => Ok(decimal(n as nat)),
        JsonValue::Signed(n) => Ok(signed_decimal(n as int)),
        JsonValue::Real(t) => Ok(t),
        JsonValue::Text(t) => Ok(t),
        _ => Err(Error::Json),
    }
}

/// Reads a string from a value that is a string or a number.
pub fn deserialize_integer_to_string(json: &Json) -> (r: Result<String, Error>)
    ensures
        text_result_is(r, integer_to_string_spec(json@)),
{
    match json {
        Json::Unsigned(n) => Ok(u64_to_decimal(*n)),
        Json::Signed(n) => Ok(i64_to_decimal(*n)),
        Json::Real(t) => Ok(t.clone()),
        Json::Text(t) => Ok(t.clone()),
        _ => Err(Error::Json),
    }
}

/// Reads a string from a value that is a string or a number; any other value gives
/// `None`.
pub fn deserialize_integer_to_option_string(json: &Json) -> (r: Option<String>)
    ensures
        optional_text(r) == match integer_to_string_spec(json@) {
            Ok(t) => Some(t),
            Err(_) => None,
        },
{
    match deserialize_integer_to_string(json) {
        Ok(t) => Some(t),
        Err(_) => None,
    }
}

/// The location that a value holds: the location of an object, which must be a whole
/// one; `None` for a value that is no object.
pub open spec fn bad_location_as_none_spec(json: JsonValue) -> Result<Option<Location>, Error> {
    if json is Object {
        match location_spec(json) {
            Ok(location) => Ok(Some(location)),
            Err(e) => Err(e),
        }
    } else {
        Ok(None)
    }
}

/// Reads a location from a value that holds one only where it is an object.
pub fn deserialize_bad_location_as_none(json: &Json) -> (r: Result<Option<Location>, Error>)
    ensures
        r == bad_location_as_none_spec(json@),
{
    match json {
        Json::Object(_) => match Location::from_json(json) {
            Ok(location) => Ok(Some(location)),
            Err(e) => Err(e),
        },
        _ => Ok(None),
    }
}

/// A string that the backend sends as a string or as a whole number.
#[derive(Debug, Clone, PartialEq)]
pub struct StringOrInt(String);

impl View for StringOrInt {
    type V = Seq<char>;

    closed spec fn view(&self) -> Seq<char> {
        self.0@
    }
}

/// The text of a value that is a string or a whole number. A number with a fraction, and
/// any other value, is rejected with [`Error::Json`].
pub open spec fn string_or_int_spec(json: JsonValue) -> Result<Seq<char>, Error> {
    match json {
        JsonValue::Unsigned(n) => Ok(decimal(n as nat)),
        JsonValue::Signed(n) => Ok(signed_decimal(n as int)),
        JsonValue::Text(t) => Ok(t),
        _ => Err(Error::Json),
    }
}

impl StringOrInt {
    /// Takes a string as it is.
    pub fn new(text: String) -> (s: StringOrInt)
        ensures
            s@ == text@,
    {
        StringOrInt(text)
    }

    /// Reads a string from a value that is a string or a whole number.
    pub fn deserialize(json: &Json) -> (r: Result<StringOrInt, Error>)
        ensures
            match r {
                Ok(s) => string_or_int_spec(json@) == Ok::<Seq<char>, Error>(s@),
                Err(e) => string_or_int_spec(json@) == Err::<Seq<char>, Error>(e),
            },
    {
        match json {
            Json::Unsigned(n) => Ok(StringOrInt(u64_to_decimal(*n))),
            Json::Signed(n) => Ok(StringOrInt(i64_to_decimal(*n))),
            Json::Text(t) => Ok(StringOrInt(t.clone())),
            _ => Err(Error::Json),
        }
    }

    /// The string.
    pub fn as_ref(&self) -> (text: &str)
        ensures
            text@ == self@,
    {
        self.0.as_str()
    }
}

} // verus!
