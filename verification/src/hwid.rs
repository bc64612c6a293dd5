//! Hardware IDs: the fingerprint that the backend wants with every login.

use crate::digest::{md5_digest, md5_of};
use crate::text::{hex_lower, to_hex_lower};
use vstd::bytes::{spec_u32_to_le_bytes, u32_to_le_bytes};
use vstd::prelude::*;
use vstd::slice::slice_subrange;

verus! {

/// Draws a number with `rand::Rng::gen` from `rand::thread_rng()`. Nothing is promised of
/// the number: it differs from call to call.
#[verifier::external_body]
fn random_i32() -> i32 {
    rand::Rng::gen(&mut rand::thread_rng())
}

/// The MD5 digest of the four bytes of a number, the low byte first.
pub open spec fn seed_digest(seed: i32) -> Seq<u8> {
    md5_digest(spec_u32_to_le_bytes(seed as u32))
}

/// The hardware ID that eight numbers give: `#1-`, then the digests of the second to the
/// eighth number in hexadecimal, parted by two colons and then by dashes, then a dash and
/// the digest of the first number without its last eight digits.
pub open spec fn hwid_spec(seeds: Seq<i32>) -> Seq<char> {
    "#1-"@ + hex_lower(seed_digest(seeds[1])) + ":"@ + hex_lower(seed_digest(seeds[2])) + ":"@
        + hex_lower(seed_digest(seeds[3])) + "-"@ + hex_lower(seed_digest(seeds[4])) + "-"@
        + hex_lower(seed_digest(seeds[5])) + "-"@ + hex_lower(seed_digest(seeds[6])) + "-"@
        + hex_lower(seed_digest(seeds[7])) + "-"@ + hex_lower(seed_digest(seeds[0])).take(
        hex_lower(seed_digest(seeds[0])).len() - 8,
    )
}

/// Whether a text is a hardware ID that some eight numbers give.
pub open spec fn is_hwid(text: Seq<char>) -> bool {
    exists|seeds: Seq<i32>| seeds.len() == 8 && text == #[trigger] hwid_spec(seeds)
}

fn seed_md5(seed: i32) -> (digest: [u8; 16])
    ensures
        digest@ == seed_digest(seed),
{
    let bytes = u32_to_le_bytes(#[verifier::truncate] (seed as u32));
    md5_of(bytes.as_slice())
}

/// Builds the hardware ID that eight numbers give. It is 258 characters long.
pub fn hwid_from_seeds(seeds: &[i32; 8]) -> (hwid: String)
    ensures
        hwid@ == hwid_spec(seeds@),
        hwid@.len() == 258,
{
    proof {
        reveal_strlit("#1-");
        reveal_strlit(":");
        reveal_strlit("-");
    }
    let short = seed_md5(seeds[0]);
    let mut hwid = String::from_str("#1-");
    hwid.append(to_hex_lower(seed_md5(seeds[1]).as_slice()).as_str());
    hwid.append(":");
    hwid.append(to_hex_lower(seed_md5(seeds[2]).as_slice()).as_str());
    hwid.append(":");
    hwid.append(to_hex_lower(seed_md5(seeds[3]).as_slice()).as_str());
    hwid.append("-");
    hwid.append(to_hex_lower(seed_md5(seeds[4]).as_slice()).as_str());
    hwid.append("-");
    hwid.append(to_hex_lower(seed_md5(seeds[5]).as_slice()).as_str());
    hwid.append("-");
    hwid.append(to_hex_lower(seed_md5(seeds[6]).as_slice()).as_str());
    hwid.append("-");
    hwid.append(to_hex_lower(seed_md5(seeds[7]).as_slice()).as_str());
    hwid.append("-");
    hwid.append(to_hex_lower(slice_subrange(short.as_slice(), 0, 12)).as_str());
    assert(hex_lower(short@.subrange(0, 12)) =~= hex_lower(short@).take(
        hex_lower(short@).len() - 8,
    ));
    hwid
}

/// Makes a hardware ID from eight random numbers. It is 258 characters long.
pub fn generate_hwid() -> (hwid: String)
    ensures
        is_hwid(hwid@),
        hwid@.len() == 258,
{
    let seeds: [i32; 8] = [
        random_i32(),
        random_i32(),
        random_i32(),
        random_i32(),
        random_i32(),
        random_i32(),
        random_i32(),
        random_i32(),
    ];
    hwid_from_seeds(&seeds)
}

} // verus!
