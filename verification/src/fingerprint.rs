//! Content fingerprints: the SHA-256 digest of a text, written as lower-case
//! hexadecimal.

use crate::text::text_result;
use sha2::Digest;
use vstd::prelude::*;
use vstd::string::*;
use vstd::utf8::*;

verus! {

/// Number of bytes in a SHA-256 digest.
pub const DIGEST_LEN: usize = 32;

/// Number of characters in a fingerprint: two per digest byte.
pub const FINGERPRINT_LEN: usize = 64;

/// The digest that `sha2::Sha256` computes for `data`.
pub uninterp spec fn sha256_digest(data: Seq<u8>) -> Seq<u8>;

/// Calls `sha2::Sha256::digest` (the one-shot form of `Digest`: a fresh
/// hasher, one `input`, `result`).
///
/// Trusted: the result is a function of `data` alone, named
/// [`sha256_digest`], and is 32 bytes long, the hasher's fixed `OutputSize`.
#[verifier::external_body]
fn sha256(data: &[u8]) -> (digest: Vec<u8>)
    ensures
        digest@ == sha256_digest(data@),
        digest@.len() == DIGEST_LEN,
{
    sha2::Sha256::digest(data).to_vec()
}

/// The lower-case hexadecimal digit for `n`, for `n` below 16.
pub open spec fn hex_digit(n: int) -> char {
    "0123456789abcdef"@[n]
}

/// Lower-case hexadecimal text of `bytes`: two digits per byte, high nibble
/// first.
pub open spec fn hex_of(bytes: Seq<u8>) -> Seq<char> {
    Seq::new(
        2 * bytes.len(),
        |i: int| if i % 2 == 0 { hex_digit(bytes[i / 2] as int / 16) } else { hex_digit(bytes[i / 2] as int % 16) },
    )
}

/// Whether `c` is one of the sixteen lower-case hexadecimal digits.
pub open spec fn is_hex_digit(c: char) -> bool {
    exists|n: int| 0 <= n < 16 && c == #[trigger] hex_digit(n)
}

/// Hexadecimal text has two characters for each byte, and all of them are
/// hexadecimal digits.
pub proof fn lemma_hex_of_shape(bytes: Seq<u8>)
    ensures
        hex_of(bytes).len() == 2 * bytes.len(),
        forall|i: int| 0 <= i < hex_of(bytes).len() ==> is_hex_digit(#[trigger] hex_of(bytes)[i]),
{
    assert forall|i: int| 0 <= i < hex_of(bytes).len() implies is_hex_digit(
        #[trigger] hex_of(bytes)[i],
    ) by {
        let byte = bytes[i / 2] as int;
        if i % 2 == 0 {
            assert(hex_of(bytes)[i] == hex_digit(byte / 16));
        } else {
            assert(hex_of(bytes)[i] == hex_digit(byte % 16));
        }
    }
}

/// The one-character string of a hexadecimal digit.
fn hex_digit_str(n: u8) -> (digit: &'static str)
    requires
        n < 16,
    ensures
        digit@ == seq![hex_digit(n as int)],
{
    let table = "0123456789abcdef";
    proof {
        reveal_strlit("0123456789abcdef");
        assert(is_ascii_chars(table@));
    }
    let digit = table.substring_ascii(n as usize, n as usize + 1);
    assert(digit@ =~= seq![hex_digit(n as int)]);
    digit
}

/// Writes `bytes` as lower-case hexadecimal.
pub fn to_hex(bytes: &[u8]) -> (text: String)
    ensures
        text@ == hex_of(bytes@),
{
    let mut text = String::new();
    let mut i: usize = 0;
    while i < bytes.len()
        invariant
            i <= bytes.len(),
            text@ == hex_of(bytes@.take(i as int)),
        decreases bytes.len() - i,
    {
        let byte = bytes[i];
        text.append(hex_digit_str(byte / 16));
        text.append(hex_digit_str(byte % 16));
        i += 1;
        assert(text@ =~= hex_of(bytes@.take(i as int)));
    }
    assert(bytes@.take(i as int) =~= bytes@);
    text
}

/// Message of the failure reported for a digest of the wrong length.
pub const BAD_DIGEST: &'static str = "digest is not 32 bytes long";

/// The fingerprint that a digest stands for: its hexadecimal text when it
/// has the length of a SHA-256 digest, a failure otherwise.
pub open spec fn digest_fingerprint(digest: Seq<u8>) -> Result<Seq<char>, Seq<char>> {
    if digest.len() == DIGEST_LEN {
        Ok(hex_of(digest))
    } else {
        Err(BAD_DIGEST@)
    }
}

/// The fingerprint of a rendered text: the hexadecimal SHA-256 digest of its
/// UTF-8 bytes.
pub open spec fn fingerprint(content: Seq<char>) -> Seq<char> {
    hex_of(sha256_digest(encode_utf8(content)))
}

/// Turns a digest into a fingerprint, refusing one of the wrong length.
pub fn fingerprint_of_digest(digest: &[u8]) -> (res: Result<String, String>)
    ensures
        text_result(res) == digest_fingerprint(digest@),
{
    if digest.len() == DIGEST_LEN {
        Ok(to_hex(digest))
    } else {
        Err(BAD_DIGEST.to_owned())
    }
}

/// Computes the fingerprint of `content`.
///
/// Always succeeds: the digest of any text has the right length. Two equal
/// texts have equal fingerprints, and every fingerprint is 64 hexadecimal
/// digits.
pub fn generate_hash(content: String) -> (res: Result<String, String>)
    ensures
        res is Ok,
        res->Ok_0@ == fingerprint(content@),
        res->Ok_0@.len() == FINGERPRINT_LEN,
        forall|i: int| 0 <= i < FINGERPRINT_LEN ==> is_hex_digit(#[trigger] res->Ok_0@[i]),
{
    let digest = sha256(content.as_str().as_bytes());
    proof {
        lemma_hex_of_shape(digest@);
    }
    fingerprint_of_digest(digest.as_slice())
}

} // verus!
