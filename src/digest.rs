//! The key digest: a fixed-length fingerprint of an encoded key.
use vstd::prelude::*;

verus! {

/// Number of hexadecimal digits in a fingerprint (a 256-bit digest).
pub const FINGERPRINT_LEN: usize = 64;

/// A lowercase hexadecimal digit.
pub open spec fn is_hex_digit(c: char) -> bool {
    ('0' <= c && c <= '9') || ('a' <= c && c <= 'f')
}

/// A well-formed fingerprint: exactly `FINGERPRINT_LEN` lowercase hexadecimal digits.
pub open spec fn is_fingerprint(fp: Seq<char>) -> bool {
    &&& fp.len() == FINGERPRINT_LEN
    &&& forall|i: int| 0 <= i < fp.len() ==> is_hex_digit(#[trigger] fp[i])
}

/// The SHA-256 digest of the UTF-8 bytes of `text`, written as lowercase hexadecimal.
pub uninterp spec fn sha256_hex_of(text: Seq<char>) -> Seq<char>;

/// Relies on rust-crypto's `Sha256` through its `Digest` trait (`input_str`, then
/// `result_str`): the digest of the text's bytes, rendered by `result_str` as two
/// digits from "0123456789abcdef" for each of the 32 output bytes.
#[verifier::external_body]
fn sha256_hex(text: &str) -> (r: String)
    ensures
        r@ == sha256_hex_of(text@),
        is_fingerprint(r@),
{
    let mut hasher = crypto::sha2::Sha256::new();
    crypto::digest::Digest::input_str(&mut hasher, text);
    crypto::digest::Digest::result_str(&mut hasher)
}

/// The fingerprint of an encoded key: the storage address of its mapping.
pub open spec fn fingerprint_of(encoded_key: Seq<char>) -> Seq<char> {
    sha256_hex_of(encoded_key)
}

/// Derives the fingerprint of an encoded key. Equal encodings give equal fingerprints.
pub fn fingerprint(encoded_key: &str) -> (fp: String)
    ensures
        fp@ == fingerprint_of(encoded_key@),
        is_fingerprint(fp@),
{
    sha256_hex(encoded_key)
}

} // verus!
