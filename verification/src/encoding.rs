//! Byte/text codecs the request layer leans on: base64 for transaction
//! payloads, base58 for content hashes, SHA-256 for content addressing,
//! and UTF-8 for account identifiers carried inside transaction bytes.
//!
//! Each outside call sits behind one trusted wrapper.  Results that would
//! take pages to state are given names (`sha256_of`, `base64_decoded`,
//! `base58_of`, `base58_decoded`); everything proved about them elsewhere
//! goes through those names.

use vstd::prelude::*;

use base64::Engine;
use sha2::Digest;

verus! {

/// The SHA-256 digest of a byte sequence, as the sha2 crate computes it.
/// It depends on the bytes alone.
pub uninterp spec fn sha256_of(bytes: Seq<u8>) -> Seq<u8>;

/// What base64 decoding (standard alphabet, padded) yields for a string:
/// `None` where the string is not well-formed base64.  It depends on the
/// characters alone.
pub uninterp spec fn base64_decoded(s: Seq<char>) -> Option<Seq<u8>>;

/// The base58 rendering of a byte sequence, as the bs58 crate computes it
/// with its default alphabet.  It depends on the bytes alone.
pub uninterp spec fn base58_of(bytes: Seq<u8>) -> Seq<char>;

/// What base58 decoding yields for a string: `None` where a character is
/// outside the alphabet.  It depends on the characters alone.
pub uninterp spec fn base58_decoded(s: Seq<char>) -> Option<Seq<u8>>;

/// Relies on sha2's `Sha256::digest`: a 32-byte digest that is a function
/// of the input bytes alone.
#[verifier::external_body]
pub fn sha256_digest(bytes: &[u8]) -> (r: Vec<u8>)
    ensures
        r@ == sha256_of(bytes@),
        r@.len() == 32,
{
    sha2::Sha256::digest(bytes).to_vec()
}

/// Relies on base64's `Engine::decode` with the standard padded engine:
/// it decodes exactly the well-formed inputs, to bytes that depend on the
/// input alone.
#[verifier::external_body]
pub fn base64_decode(s: &str) -> (r: Option<Vec<u8>>)
    ensures
        r is Some <==> base64_decoded(s@) is Some,
        r matches Some(v) ==> Some(v@) == base64_decoded(s@),
{
    base64::engine::general_purpose::STANDARD.decode(s).ok()
}

/// Relies on bs58's `encode(..).into_string()`: a rendering that depends
/// on the input bytes alone.
#[verifier::external_body]
pub fn base58_encode(bytes: &[u8]) -> (r: String)
    ensures
        r@ == base58_of(bytes@),
{
    bs58::encode(bytes).into_string()
}

/// Relies on bs58's `decode(..).into_vec()`: it decodes exactly the
/// well-formed inputs, to bytes that depend on the input alone.
#[verifier::external_body]
pub fn base58_decode(s: &str) -> (r: Option<Vec<u8>>)
    ensures
        r is Some <==> base58_decoded(s@) is Some,
        r matches Some(v) ==> Some(v@) == base58_decoded(s@),
{
    bs58::decode(s).into_vec().ok()
}

/// Relies on std's `str::from_utf8`: it accepts exactly the valid UTF-8
/// byte sequences and yields their decoding, here stated with vstd's own
/// model of UTF-8.
#[verifier::external_body]
pub fn utf8_decode(bytes: &[u8]) -> (r: Option<String>)
    ensures
        r is Some <==> vstd::utf8::valid_utf8(bytes@),
        r matches Some(s) ==> s@ == vstd::utf8::decode_utf8(bytes@),
{
    match core::str::from_utf8(bytes) {
        Ok(s) => Some(s.to_owned()),
        Err(_) => None,
    }
}

} // verus!
