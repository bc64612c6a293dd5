//! The envelope on the wire: what a request body looks like, and how the body of a reply
//! is opened.

use crate::json::{
    json_result_is, parse, parse_spec, render, render_spec, text_result_is, Json, JsonValue,
};
use crate::text::str_eq;
use crate::Error;
use vstd::prelude::*;

verus! {

/// `std::io::Error`, carried as it is: the library only sees that there is one.
#[verifier::external_type_specification]
#[verifier::external_body]
pub struct ExIoError(std::io::Error);

/// The text that a zlib stream holds: what `flate2::read::ZlibDecoder` gives when it is
/// read to its end as a string. `None` where the stream is broken or what it holds is not
/// UTF-8.
pub uninterp spec fn inflated_text(raw: Seq<u8>) -> Option<Seq<char>>;

/// Reads a `flate2::read::ZlibDecoder` over `raw` to its end with
/// `std::io::Read::read_to_string`. The contract only gives what comes back a name: the
/// text read, as a function of the bytes.
#[verifier::external_body]
fn inflate_to_string(raw: &[u8]) -> (r: Result<String, std::io::Error>)
    ensures
        match r {
            Ok(text) => inflated_text(raw@) == Some(text@),
            Err(_) => inflated_text(raw@) is None,
        },
{
    let mut text = String::new();
    std::io::Read::read_to_string(&mut flate2::read::ZlibDecoder::new(raw), &mut text)?;
    Ok(text)
}

/// The body that is sent for a JSON text: the backend rejects a bare `null`, so an empty
/// object goes in its place.
pub open spec fn body_text_spec(text: Seq<char>) -> Seq<char> {
    if text == "null"@ {
        "{}"@
    } else {
        text
    }
}

/// Puts an empty object in the place of a bare `null`.
pub fn body_text(text: String) -> (body: String)
    ensures
        body@ == body_text_spec(text@),
{
    if str_eq(text.as_str(), "null") {
        "{}".to_owned()
    } else {
        text
    }
}

/// What [`encode`] returns for a value.
pub open spec fn encode_spec(body: JsonValue) -> Result<Seq<char>, Error> {
    match render_spec(body) {
        Ok(text) => Ok(body_text_spec(text)),
        Err(e) => Err(e),
    }
}

/// Writes the body of a request: the value as JSON text, or an empty object where that
/// text would be `null`.
pub fn encode(body: &Json) -> (r: Result<String, Error>)
    ensures
        text_result_is(r, encode_spec(body@)),
{
    match render(body) {
        Ok(text) => Ok(body_text(text)),
        Err(e) => Err(e),
    }
}

/// What [`decode`] returns for the bytes of a reply.
pub open spec fn decode_spec(raw: Seq<u8>) -> Result<JsonValue, Error> {
    match inflated_text(raw) {
        Some(text) => parse_spec(text),
        None => Err(Error::Io),
    }
}

/// Opens the body of a reply: inflates the zlib stream, reads what it holds as UTF-8
/// text, and reads that text as JSON. Fails with [`Error::Io`] where the first two fail
/// and with [`Error::Json`] where the third does.
pub fn decode(raw: &[u8]) -> (r: Result<Json, Error>)
    ensures
        json_result_is(r, decode_spec(raw@)),
{
    match inflate_to_string(raw) {
        Ok(text) => parse(text.as_str()),
        Err(_) => Err(Error::Io),
    }
}

} // verus!
