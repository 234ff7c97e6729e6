//! Base64 text for binary data, in the URL-safe alphabet without padding.
use vstd::prelude::*;
use vstd::string::StringSliceAdditionalSpecFns;

verus! {

/// The URL-safe, unpadded base64 text of `b`.
pub uninterp spec fn base64_url_encoded(b: Seq<u8>) -> Seq<char>;

/// The bytes that the URL-safe, unpadded base64 text `s` stands for, or
/// `None` if it is not such text.
pub uninterp spec fn base64_url_decoded(s: Seq<char>) -> Option<Seq<u8>>;

/// The length of the URL-safe, unpadded base64 text of `n` bytes: four
/// characters for each whole group of three bytes, then two for one byte
/// left over and three for two.
pub open spec fn base64_unpadded_len(n: nat) -> nat {
    let tail: nat = if n % 3 == 0 {
        0
    } else if n % 3 == 1 {
        2
    } else {
        3
    };
    4 * (n / 3) + tail
}

/// Why base64 text could not be decoded.
#[derive(Clone, Copy, Debug, PartialEq, Eq, Structural)]
pub enum Base64Error {
    /// A byte outside the alphabet, with its offset and value.
    InvalidByte(usize, u8),
    /// A length that leaves a 6-bit remainder.
    InvalidLength,
    /// A last symbol whose discarded bits are not zero, with its offset and
    /// value.
    InvalidLastSymbol(usize, u8),
}

/// Relies on `base64::encode_config` with `URL_SAFE_NO_PAD`: the encoding
/// depends on the bytes alone and has the unpadded length. It panics when
/// that length overflows `usize`, which `requires` rules out.
#[verifier::external_body]
fn encode_url_no_pad(b: &[u8]) -> (r: String)
    requires
        b@.len() / 3 * 4 + 3 <= usize::MAX,
    ensures
        r@ == base64_url_encoded(b@),
        r@.len() == base64_unpadded_len(b@.len()),
{
    base64::encode_config(b, base64::URL_SAFE_NO_PAD)
}

/// Relies on `base64::decode_config` with `URL_SAFE_NO_PAD`: the outcome
/// depends on the text alone. It panics when the byte length plus three
/// overflows `usize`, which `requires` rules out. The error's variants are
/// carried over one for one.
#[verifier::external_body]
fn decode_url_no_pad(s: &str) -> (r: Result<Vec<u8>, Base64Error>)
    requires
        s.spec_bytes().len() + 3 <= usize::MAX,
    ensures
        r is Ok <==> base64_url_decoded(s@) is Some,
        r matches Ok(v) ==> base64_url_decoded(s@) == Some(v@),
{
    base64::decode_config(s, base64::URL_SAFE_NO_PAD).map_err(|e| match e {
        base64::DecodeError::InvalidByte(i, b) => Base64Error::InvalidByte(i, b),
        base64::DecodeError::InvalidLength => Base64Error::InvalidLength,
        base64::DecodeError::InvalidLastSymbol(i, b) => Base64Error::InvalidLastSymbol(i, b),
    })
}

/// Encodes `input` as URL-safe base64 without padding.
pub fn base64_encode(input: &[u8]) -> (r: String)
    requires
        input@.len() / 3 * 4 + 3 <= usize::MAX,
    ensures
        r@ == base64_url_encoded(input@),
        r@.len() == base64_unpadded_len(input@.len()),
{
    encode_url_no_pad(input)
}

/// Decodes URL-safe base64 text without padding.
pub fn base64_decode(input: &str) -> (r: Result<Vec<u8>, Base64Error>)
    requires
        input.spec_bytes().len() + 3 <= usize::MAX,
    ensures
        r is Ok <==> base64_url_decoded(input@) is Some,
        r matches Ok(v) ==> base64_url_decoded(input@) == Some(v@),
{
    decode_url_no_pad(input)
}

} // verus!
