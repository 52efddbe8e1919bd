//! Parameter decoding for the transaction methods: the JSON params value
//! to a signed transaction, or the exact local validation error — which
//! is returned synchronously and never forwarded to a backend.

use vstd::prelude::*;
use crate::encoding::{base64_decoded, base64_decode};
use crate::errors::{RpcError, INVALID_PARAMS_CODE, ErrorData};
use crate::tx::{SignedTransaction, spec_decode_tx, decode_tx};

verus! {

/// What parsing a JSON params text as a one-string tuple yields.  It
/// depends on the characters alone.
pub uninterp spec fn one_string_param(s: Seq<char>) -> Option<Seq<char>>;

/// What parsing a JSON params text as a two-string tuple yields.  It
/// depends on the characters alone.
pub uninterp spec fn two_string_params(s: Seq<char>) -> Option<(Seq<char>, Seq<char>)>;

/// Relies on serde_json's `from_str` for `(String,)`: it accepts exactly
/// the JSON arrays of one string, and the result depends on the input
/// text alone.
#[verifier::external_body]
pub fn parse_one_string(s: &str) -> (r: Option<String>)
    ensures
        r is Some <==> one_string_param(s@) is Some,
        r matches Some(v) ==> Some(v@) == one_string_param(s@),
{
    serde_json::from_str::<(String,)>(s).ok().map(|t| t.0)
}

/// Relies on serde_json's `from_str` for `(String, String)`: it accepts
/// exactly the JSON arrays of two strings, and the result depends on the
/// input text alone.
#[verifier::external_body]
pub fn parse_two_strings(s: &str) -> (r: Option<(String, String)>)
    ensures
        r is Some <==> two_string_params(s@) is Some,
        r matches Some(v) ==> Some((v.0@, v.1@)) == two_string_params(s@),
{
    serde_json::from_str::<(String, String)>(s).ok()
}

/// The stages at which parsing a transaction out of the params can stop.
pub enum ParseTxClass {
    /// No params were given at all.
    NoParams,
    /// The params are not a one-string tuple.
    BadArgs,
    /// The string is not well-formed base64.
    BadBase64,
    /// The bytes are not a well-formed transaction encoding.
    BadTransaction,
    /// A transaction was read: its nonce, signer and payload.
    Parsed(u64, Seq<char>, Seq<u8>),
}

/// The exact outcome of transaction parsing for given params text.
pub open spec fn spec_parse_tx(params: Option<Seq<char>>) -> ParseTxClass {
    match params {
        None => ParseTxClass::NoParams,
        Some(p) => match one_string_param(p) {
            None => ParseTxClass::BadArgs,
            Some(encoded) => match base64_decoded(encoded) {
                None => ParseTxClass::BadBase64,
                Some(bytes) => match spec_decode_tx(bytes) {
                    None => ParseTxClass::BadTransaction,
                    Some(t) => ParseTxClass::Parsed(t.0, t.1, t.2),
                },
            },
        },
    }
}

/// The exact error object of a failed parse stage: every stage is a local
/// validation failure — invalid params — with the stage's reason attached.
pub open spec fn spec_parse_tx_error(c: ParseTxClass, e: RpcError) -> bool {
    match c {
        ParseTxClass::NoParams => e.code == INVALID_PARAMS_CODE && (e.data matches Some(
            ErrorData::Text(t),
        ) && t@ == require_param_text()),
        ParseTxClass::BadArgs => e.code == INVALID_PARAMS_CODE && (e.data matches Some(
            ErrorData::Text(t),
        ) && t@ == bad_args_text()),
        ParseTxClass::BadBase64 => e.code == INVALID_PARAMS_CODE && (e.data matches Some(
            ErrorData::Text(t),
        ) && t@ == bad_base64_text()),
        ParseTxClass::BadTransaction => e.code == INVALID_PARAMS_CODE && (e.data matches Some(
            ErrorData::Text(t),
        ) && t@ == bad_transaction_text()),
        ParseTxClass::Parsed(n, s, b) => false,
    }
}

/// Decodes the params of a submit method into a signed transaction, or
/// the exact validation error of the stage that failed.
pub fn parse_tx(params: Option<&str>) -> (r: Result<SignedTransaction, RpcError>)
    ensures
        (spec_parse_tx(view_params(params)) matches ParseTxClass::Parsed(n, s, b)) <==> r is Ok,
        r matches Ok(t) ==> {
            &&& spec_parse_tx(view_params(params)) == ParseTxClass::Parsed(t.nonce, t.signer_id@, t.body@)
            &&& t.wf()
        },
        r matches Err(e) ==> spec_parse_tx_error(spec_parse_tx(view_params(params)), e),
{
    let p = match params {
        Some(p) => p,
        None => {
            return Err(
                RpcError::invalid_params(String::from_str("Require at least one parameter")),
            );
        },
    };
    let encoded = match parse_one_string(p) {
        Some(s) => s,
        None => {
            return Err(RpcError::invalid_params(String::from_str("Failed parsing args")));
        },
    };
    let bytes = match base64_decode(encoded.as_str()) {
        Some(b) => b,
        None => {
            return Err(
                RpcError::invalid_params(String::from_str("Failed to decode base64 payload")),
            );
        },
    };
    match decode_tx(bytes.as_slice()) {
        Some(t) => Ok(t),
        None => Err(RpcError::invalid_params(String::from_str("Failed to decode transaction"))),
    }
}

/// The params as the specification sees them.
pub open spec fn view_params(params: Option<&str>) -> Option<Seq<char>> {
    match params {
        Some(p) => Some(p@),
        None => None,
    }
}

pub open spec fn require_param_text() -> Seq<char> {
    "Require at least one parameter"@
}

pub open spec fn bad_args_text() -> Seq<char> {
    "Failed parsing args"@
}

pub open spec fn bad_base64_text() -> Seq<char> {
    "Failed to decode base64 payload"@
}

pub open spec fn bad_transaction_text() -> Seq<char> {
    "Failed to decode transaction"@
}

} // verus!
