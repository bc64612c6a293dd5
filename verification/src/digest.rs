//! MD5 digests, as the backend asks for them: in lower-case hexadecimal.

use crate::text::{hex_lower, hex_lower_shape, to_hex_lower};
use vstd::prelude::*;
use vstd::utf8::encode_utf8;

verus! {

/// The MD5 digest of a sequence of bytes, as `md5::compute` gives it.
pub uninterp spec fn md5_digest(data: Seq<u8>) -> Seq<u8>;

/// Calls `md5::compute` and takes the sixteen bytes out of the `Digest`. The contract
/// only gives them a name: the digest, as a function of the data.
#[verifier::external_body]
pub(crate) fn md5_of(data: &[u8]) -> (digest: [u8; 16])
    ensures
        digest@ == md5_digest(data@),
{
    md5::compute(data).0
}

/// The MD5 digest of `data`, in lower-case hexadecimal.
pub open spec fn md5_hex_spec(data: Seq<u8>) -> Seq<char> {
    hex_lower(md5_digest(data))
}

/// Computes the MD5 digest of `data` and writes it in lower-case hexadecimal: 32 digits.
pub fn md5_hex(data: &[u8]) -> (text: String)
    ensures
        text@ == md5_hex_spec(data@),
        text@.len() == 32,
{
    let digest = md5_of(data);
    proof {
        hex_lower_shape(digest@);
    }
    to_hex_lower(digest.as_slice())
}

/// The MD5 digest of the UTF-8 bytes of `text`, in lower-case hexadecimal. This is the
/// form in which a password goes to the backend.
pub fn md5_hex_of_str(text: &str) -> (hash: String)
    ensures
        hash@ == md5_hex_spec(encode_utf8(text@)),
        hash@.len() == 32,
{
    md5_hex(text.as_bytes())
}

} // verus!
