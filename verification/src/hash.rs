//! Short identifiers derived from template titles.

use sha2::{Digest, Sha256};
use vstd::prelude::*;
use vstd::string::StringSliceAdditionalSpecFns;
use vstd::utf8::encode_utf8;

use crate::text::push_char;

verus! {

/// The SHA-256 digest of a byte string, as the `sha2` crate computes it.
pub uninterp spec fn sha256(data: Seq<u8>) -> Seq<u8>;

/// Computes a SHA-256 digest.
///
/// Trusted: `Sha256::digest` of the `sha2` crate hashes exactly the bytes it
/// is given, depends on nothing else, and returns the 32 bytes of the digest.
#[verifier::external_body]
fn sha256_digest(data: &[u8]) -> (digest: Vec<u8>)
    ensures
        digest@ == sha256(data@),
        digest@.len() == 32,
{
    Sha256::digest(data).to_vec()
}

/// Number of characters in a hash code.
pub const HASH_LEN: usize = 8;

/// The lowercase hexadecimal digit for a value below sixteen: `0` has the
/// code 48, and `a`, which stands for ten, the code 97.
pub open spec fn hex_digit(n: u8) -> char {
    if n < 10 {
        (48 + n) as u8 as char
    } else {
        (87 + n) as u8 as char
    }
}

/// `c` is one of `0`-`9`, `a`-`f`.
pub open spec fn is_lower_hex(c: char) -> bool {
    ('0' <= c && c <= '9') || ('a' <= c && c <= 'f')
}

/// The lowercase hexadecimal rendering of `bytes`, two digits per byte, the
/// high half of each byte first.
pub open spec fn hex_lower(bytes: Seq<u8>) -> Seq<char> {
    Seq::new(
        2 * bytes.len(),
        |i: int|
            if i % 2 == 0 {
                hex_digit(bytes[i / 2] / 16)
            } else {
                hex_digit(bytes[i / 2] % 16)
            },
    )
}

/// The hash code of a title: the first eight characters of the lowercase
/// hexadecimal SHA-256 digest of the title's UTF-8 bytes.
pub open spec fn hash_code(title: Seq<char>) -> Seq<char> {
    hex_lower(sha256(encode_utf8(title))).take(HASH_LEN as int)
}

/// Executable form of [`hex_digit`].
fn hex_digit_exec(n: u8) -> (c: char)
    requires
        n < 16,
    ensures
        c == hex_digit(n),
        is_lower_hex(c),
{
    if n < 10 {
        (48 + n) as char
    } else {
        (87 + n) as char
    }
}

/// Derives the hash code of `title`.
///
/// The code depends on the title alone, and is always eight lowercase
/// hexadecimal characters.
pub fn get_hash(title: String) -> (code: String)
    ensures
        code@ == hash_code(title@),
        code@.len() == HASH_LEN,
        forall|i: int| 0 <= i < code@.len() ==> is_lower_hex(#[trigger] code@[i]),
{
    let digest = sha256_digest(title.as_str().as_bytes());
    let mut code = String::new();
    let mut k: usize = 0;
    while k < HASH_LEN / 2
        invariant
            k <= HASH_LEN / 2,
            digest@.len() == 32,
            code@ == hex_lower(digest@).take(2 * k),
            forall|i: int| 0 <= i < code@.len() ==> is_lower_hex(#[trigger] code@[i]),
        decreases HASH_LEN / 2 - k,
    {
        let b: u8 = digest[k];
        push_char(&mut code, hex_digit_exec(b / 16));
        push_char(&mut code, hex_digit_exec(b % 16));
        assert(hex_lower(digest@).take(2 * k + 2) == hex_lower(digest@).take(2 * k).push(
            hex_lower(digest@)[2 * k],
        ).push(hex_lower(digest@)[2 * k + 1]));
        k += 1;
    }
    code
}

} // verus!
