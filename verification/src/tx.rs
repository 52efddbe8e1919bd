//! The signed transaction as the request layer sees it: an immutable
//! record of signer, nonce and opaque payload, content-addressed by the
//! SHA-256 digest of its wire encoding.
//!
//! The wire encoding is the crate's own framing: nonce (8 bytes little
//! endian), signer length (4 bytes little endian), the signer as UTF-8,
//! then the payload.  Encoding and decoding are verified against the
//! same mathematical description, and decoding accepts exactly the
//! well-formed encodings.

use vstd::prelude::*;
use vstd::bytes::*;
use vstd::string::*;
use vstd::utf8::{valid_utf8, decode_utf8, encode_utf8, is_ascii_chars, is_ascii_chars_encode_utf8};
use crate::account::{valid_account_id_seq, is_account_char, is_account_separator, is_valid_account_id};
use crate::encoding::{sha256_of, sha256_digest, base58_of, base58_encode, base58_decoded, base58_decode};

verus! {

/// A 32-byte content address.
#[derive(Debug, Clone, PartialEq, Eq)]
pub struct CryptoHash {
    pub bytes: Vec<u8>,
}

impl CryptoHash {
    pub open spec fn wf(&self) -> bool {
        self.bytes@.len() == 32
    }

    /// The base58 rendering under which hashes travel on the wire.
    pub fn to_base(&self) -> (r: String)
        ensures
            r@ == base58_of(self.bytes@),
    {
        base58_encode(self.bytes.as_slice())
    }

    /// Reads a hash from its base58 rendering; `None` unless the text
    /// decodes to exactly 32 bytes.
    pub fn from_base(s: &str) -> (r: Option<CryptoHash>)
        ensures
            r is Some <==> (base58_decoded(s@) matches Some(b) && b.len() == 32),
            r matches Some(h) ==> h.wf() && Some(h.bytes@) == base58_decoded(s@),
    {
        match base58_decode(s) {
            Some(bytes) => {
                if bytes.len() == 32 {
                    Some(CryptoHash { bytes })
                } else {
                    None
                }
            },
            None => None,
        }
    }

    /// An identical copy.
    pub fn duplicate(&self) -> (r: CryptoHash)
        ensures
            r.bytes@ == self.bytes@,
    {
        CryptoHash { bytes: vstd::slice::slice_to_vec(self.bytes.as_slice()) }
    }
}

/// An immutable signed transaction: what the submission and polling logic
/// reads of it, plus the rest of the record as opaque payload bytes.
#[derive(Debug, Clone, PartialEq, Eq)]
pub struct SignedTransaction {
    pub signer_id: String,
    pub nonce: u64,
    pub body: Vec<u8>,
}

/// The UTF-8 bytes of the signer identifier.
pub open spec fn spec_signer_bytes(signer: Seq<char>) -> Seq<u8> {
    encode_utf8(signer)
}

/// The wire bytes of a transaction.
pub open spec fn spec_tx_bytes(nonce: u64, signer: Seq<char>, body: Seq<u8>) -> Seq<u8> {
    spec_u64_to_le_bytes(nonce) + spec_u32_to_le_bytes(spec_signer_bytes(signer).len() as u32)
        + spec_signer_bytes(signer) + body
}

/// What decoding yields: the unique fields whose encoding is the input,
/// or `None` where the input is not a well-formed encoding.
pub open spec fn spec_decode_tx(b: Seq<u8>) -> Option<(u64, Seq<char>, Seq<u8>)> {
    if b.len() < 12 {
        None
    } else {
        let nonce = spec_u64_from_le_bytes(b.subrange(0, 8));
        let slen = spec_u32_from_le_bytes(b.subrange(8, 12)) as int;
        if b.len() < 12 + slen {
            None
        } else {
            let sb = b.subrange(12, 12 + slen);
            if valid_utf8(sb) && valid_account_id_seq(decode_utf8(sb)) {
                Some((nonce, decode_utf8(sb), b.subrange(12 + slen, b.len() as int)))
            } else {
                None
            }
        }
    }
}

impl SignedTransaction {
    /// A transaction the layer will work on: valid signer, and a record
    /// small enough to frame.
    pub open spec fn wf(&self) -> bool {
        &&& valid_account_id_seq(self.signer_id@)
        &&& 12 + spec_signer_bytes(self.signer_id@).len() + self.body@.len() <= usize::MAX
    }

    /// The content hash: the digest of the wire encoding.
    pub open spec fn spec_hash(&self) -> Seq<u8> {
        sha256_of(spec_tx_bytes(self.nonce, self.signer_id@, self.body@))
    }

    /// Derives the content address.  Stable: it depends on the record's
    /// fields alone.
    pub fn get_hash(&self) -> (r: CryptoHash)
        requires
            self.wf(),
        ensures
            r.bytes@ == self.spec_hash(),
            r.wf(),
    {
        let bytes = encode_tx(self);
        CryptoHash { bytes: sha256_digest(bytes.as_slice()) }
    }
}

/// A valid account id is ASCII, so its byte encoding is one byte per
/// character.
pub proof fn lemma_account_id_ascii(s: Seq<char>)
    requires
        valid_account_id_seq(s),
    ensures
        is_ascii_chars(s),
        spec_signer_bytes(s).len() == s.len(),
{
    assert forall|i: int| 0 <= i < s.len() implies '\0' <= #[trigger] s[i] <= '\u{7f}' by {
        assert(is_account_char(s[i]) || is_account_separator(s[i]));
    }
    is_ascii_chars_encode_utf8(s);
}

/// Produces the wire bytes of a transaction.
pub fn encode_tx(t: &SignedTransaction) -> (r: Vec<u8>)
    requires
        t.wf(),
    ensures
        r@ == spec_tx_bytes(t.nonce, t.signer_id@, t.body@),
{
    proof {
        lemma_account_id_ascii(t.signer_id@);
    }
    let signer_bytes = t.signer_id.as_str().as_bytes_vec();
    let mut out = u64_to_le_bytes(t.nonce);
    let mut len_bytes = u32_to_le_bytes(signer_bytes.len() as u32);
    out.append(&mut len_bytes);
    let mut signer_part = signer_bytes;
    out.append(&mut signer_part);
    let mut body_part = vstd::slice::slice_to_vec(t.body.as_slice());
    out.append(&mut body_part);
    out
}

/// Reads a transaction back from wire bytes; accepts exactly the
/// well-formed encodings.
pub fn decode_tx(bytes: &[u8]) -> (r: Option<SignedTransaction>)
    ensures
        r is Some <==> spec_decode_tx(bytes@) is Some,
        r matches Some(t) ==> {
            &&& spec_decode_tx(bytes@) == Some((t.nonce, t.signer_id@, t.body@))
            &&& t.wf()
        },
{
    if bytes.len() < 12 {
        return None;
    }
    let nonce_part = vstd::slice::slice_subrange(bytes, 0, 8);
    let nonce = u64_from_le_bytes(nonce_part);
    let len_part = vstd::slice::slice_subrange(bytes, 8, 12);
    let slen_u32 = u32_from_le_bytes(len_part);
    if slen_u32 as usize > bytes.len() - 12 {
        return None;
    }
    let slen = slen_u32 as usize;
    let signer_part = vstd::slice::slice_subrange(bytes, 12, 12 + slen);
    let signer = match crate::encoding::utf8_decode(signer_part) {
        Some(s) => s,
        None => {
            return None;
        },
    };
    if !is_valid_account_id(signer.as_str()) {
        return None;
    }
    let body_part = vstd::slice::slice_subrange(bytes, 12 + slen, bytes.len());
    let body = vstd::slice::slice_to_vec(body_part);
    proof {
        let sb = bytes@.subrange(12, 12 + slen as int);
        vstd::utf8::decode_utf8_encode_utf8(sb);
        assert(spec_signer_bytes(signer@) =~= sb);
    }
    Some(SignedTransaction { signer_id: signer, nonce, body })
}

/// Law: the codec round-trips.  Decoding the encoding of any transaction
/// with a valid signer gives back exactly its fields.
pub proof fn lemma_tx_codec_round_trip(nonce: u64, signer: Seq<char>, body: Seq<u8>)
    requires
        valid_account_id_seq(signer),
    ensures
        spec_decode_tx(spec_tx_bytes(nonce, signer, body)) == Some((nonce, signer, body)),
{
    lemma_account_id_ascii(signer);
    lemma_auto_spec_u64_to_from_le_bytes();
    lemma_auto_spec_u32_to_from_le_bytes();
    let sb = spec_signer_bytes(signer);
    let slen = sb.len() as int;
    let b = spec_tx_bytes(nonce, signer, body);
    assert(b.len() == 12 + slen + body.len());
    assert(b.subrange(0, 8) =~= spec_u64_to_le_bytes(nonce));
    assert(b.subrange(8, 12) =~= spec_u32_to_le_bytes(sb.len() as u32));
    assert(spec_u32_from_le_bytes(b.subrange(8, 12)) == sb.len() as u32);
    assert(b.subrange(12, 12 + slen) =~= sb);
    vstd::utf8::encode_utf8_valid_utf8(signer);
    vstd::utf8::encode_utf8_decode_utf8(signer);
    assert(b.subrange(12 + slen, b.len() as int) =~= body);
}

/// Identity of a transaction for a status lookup: either the full record
/// or just its content address and signer.
#[derive(Debug, Clone, PartialEq, Eq)]
pub enum TransactionInfo {
    Transaction(SignedTransaction),
    TransactionId { hash: CryptoHash, account_id: String },
}

impl TransactionInfo {
    /// Whether the full transaction record is at hand, which is what
    /// permits a resubmission during status polling.
    pub open spec fn has_full_tx(&self) -> bool {
        self matches TransactionInfo::Transaction(_)
    }
}

} // verus!
