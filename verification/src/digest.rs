//! SHA-256 digests as lowercase hexadecimal text.

use vstd::prelude::*;

verus! {

/// Number of hexadecimal characters in a SHA-256 digest.
pub const DIGEST_HEX_LEN: i32 = 64;

/// One of the sixteen characters `0`-`9`, `a`-`f`.
pub open spec fn is_lower_hex(c: char) -> bool {
    ('0' <= c && c <= '9') || ('a' <= c && c <= 'f')
}

/// A text of the shape every SHA-256 digest has: 64 lowercase hexadecimal
/// characters.
pub open spec fn is_hex_digest(text: Seq<char>) -> bool {
    &&& text.len() == DIGEST_HEX_LEN
    &&& forall|i: int| 0 <= i < text.len() ==> is_lower_hex(#[trigger] text[i])
}

/// The SHA-256 digest of the UTF-8 encoding of `text`, in lowercase
/// hexadecimal. It is computed by the `sha256` crate and not defined here.
pub uninterp spec fn sha256_hex(text: Seq<char>) -> Seq<char>;

/// Calls `sha256::digest` on a string slice.
///
/// Trusted, not proved: the result is the digest that [`sha256_hex`] names,
/// a function of the characters of `text` alone, and it consists of 64
/// lowercase hexadecimal characters (the crate hex-encodes the 32 bytes that
/// SHA-256 produces).
#[verifier::external_body]
pub(crate) fn sha256_digest(text: &str) -> (digest: String)
    ensures
        digest@ == sha256_hex(text@),
        is_hex_digest(digest@),
{
    sha256::digest(text)
}

} // verus!
