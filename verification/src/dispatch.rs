//! The request dispatcher: routes a decoded call to its handler kind and
//! produces either the response itself (local validation failures, an
//! unknown method, a malformed envelope) or the backend flow to run.
//!
//! Exactly one response envelope comes out of every request.  A local
//! failure is never forwarded to a backend; an unknown method is a
//! "method not found" error with the name echoed.

use vstd::prelude::*;
use vstd::pervasive::VecAdditionalExecFns;
use crate::encoding::{base58_of, base58_decoded, sha256_of};
use crate::account::{valid_account_id_seq, is_valid_account_id};
use crate::envelope::{ResponsePayload, RpcId, RpcMessage, RpcRequest};
use crate::errors::{
    ErrorData, RpcError, INVALID_PARAMS_CODE, INVALID_REQUEST_CODE, METHOD_NOT_FOUND_CODE,
};
use crate::params::{
    ParseTxClass, parse_tx, parse_two_strings, spec_parse_tx, spec_parse_tx_error,
    two_string_params, view_params,
};
use crate::tx::{CryptoHash, SignedTransaction, TransactionInfo, spec_tx_bytes};

verus! {

/// The methods of the RPC surface.
#[derive(Debug, Clone, Copy, PartialEq, Eq, Structural)]
pub enum Method {
    Block,
    BroadcastTxAsync,
    BroadcastTxCommit,
    Chunk,
    BroadcastTxSync,
    Changes,
    ChangesInBlock,
    CheckTx,
    GenesisConfig,
    LightClientProof,
    ProtocolConfig,
    Receipt,
    TxStatusDetailed,
    ValidatorsOrdered,
    GasPrice,
    Health,
    NextLightClientBlock,
    NetworkInfo,
    Query,
    Status,
    TxStatus,
    Validators,
}

/// The exact name-to-method registry.
pub open spec fn spec_route(m: Seq<char>) -> Option<Method> {
    if m == "block"@ {
        Some(Method::Block)
    } else if m == "broadcast_tx_async"@ {
        Some(Method::BroadcastTxAsync)
    } else if m == "broadcast_tx_commit"@ {
        Some(Method::BroadcastTxCommit)
    } else if m == "chunk"@ {
        Some(Method::Chunk)
    } else if m == "EXPERIMENTAL_broadcast_tx_sync"@ {
        Some(Method::BroadcastTxSync)
    } else if m == "EXPERIMENTAL_changes"@ {
        Some(Method::Changes)
    } else if m == "EXPERIMENTAL_changes_in_block"@ {
        Some(Method::ChangesInBlock)
    } else if m == "EXPERIMENTAL_check_tx"@ {
        Some(Method::CheckTx)
    } else if m == "EXPERIMENTAL_genesis_config"@ {
        Some(Method::GenesisConfig)
    } else if m == "EXPERIMENTAL_light_client_proof"@ {
        Some(Method::LightClientProof)
    } else if m == "EXPERIMENTAL_protocol_config"@ {
        Some(Method::ProtocolConfig)
    } else if m == "EXPERIMENTAL_receipt"@ {
        Some(Method::Receipt)
    } else if m == "EXPERIMENTAL_tx_status"@ {
        Some(Method::TxStatusDetailed)
    } else if m == "EXPERIMENTAL_validators_ordered"@ {
        Some(Method::ValidatorsOrdered)
    } else if m == "gas_price"@ {
        Some(Method::GasPrice)
    } else if m == "health"@ {
        Some(Method::Health)
    } else if m == "light_client_proof"@ {
        Some(Method::LightClientProof)
    } else if m == "next_light_client_block"@ {
        Some(Method::NextLightClientBlock)
    } else if m == "network_info"@ {
        Some(Method::NetworkInfo)
    } else if m == "query"@ {
        Some(Method::Query)
    } else if m == "status"@ {
        Some(Method::Status)
    } else if m == "tx"@ {
        Some(Method::TxStatus)
    } else if m == "validators"@ {
        Some(Method::Validators)
    } else {
        None
    }
}

/// Equality of two strings by their characters.
fn str_eq(a: &str, b: &str) -> (r: bool)
    ensures
        r == (a@ == b@),
{
    let sa = a.to_owned();
    let sb = b.to_owned();
    sa.eq(&sb)
}

/// Looks a method name up in the registry.
pub fn route_method(method: &str) -> (r: Option<Method>)
    ensures
        r == spec_route(method@),
{
    if str_eq(method, "block") {
        Some(Method::Block)
    } else if str_eq(method, "broadcast_tx_async") {
        Some(Method::BroadcastTxAsync)
    } else if str_eq(method, "broadcast_tx_commit") {
        Some(Method::BroadcastTxCommit)
    } else if str_eq(method, "chunk") {
        Some(Method::Chunk)
    } else if str_eq(method, "EXPERIMENTAL_broadcast_tx_sync") {
        Some(Method::BroadcastTxSync)
    } else if str_eq(method, "EXPERIMENTAL_changes") {
        Some(Method::Changes)
    } else if str_eq(method, "EXPERIMENTAL_changes_in_block") {
        Some(Method::ChangesInBlock)
    } else if str_eq(method, "EXPERIMENTAL_check_tx") {
        Some(Method::CheckTx)
    } else if str_eq(method, "EXPERIMENTAL_genesis_config") {
        Some(Method::GenesisConfig)
    } else if str_eq(method, "EXPERIMENTAL_light_client_proof") {
        Some(Method::LightClientProof)
    } else if str_eq(method, "EXPERIMENTAL_protocol_config") {
        Some(Method::ProtocolConfig)
    } else if str_eq(method, "EXPERIMENTAL_receipt") {
        Some(Method::Receipt)
    } else if str_eq(method, "EXPERIMENTAL_tx_status") {
        Some(Method::TxStatusDetailed)
    } else if str_eq(method, "EXPERIMENTAL_validators_ordered") {
        Some(Method::ValidatorsOrdered)
    } else if str_eq(method, "gas_price") {
        Some(Method::GasPrice)
    } else if str_eq(method, "health") {
        Some(Method::Health)
    } else if str_eq(method, "light_client_proof") {
        Some(Method::LightClientProof)
    } else if str_eq(method, "next_light_client_block") {
        Some(Method::NextLightClientBlock)
    } else if str_eq(method, "network_info") {
        Some(Method::NetworkInfo)
    } else if str_eq(method, "query") {
        Some(Method::Query)
    } else if str_eq(method, "status") {
        Some(Method::Status)
    } else if str_eq(method, "tx") {
        Some(Method::TxStatus)
    } else if str_eq(method, "validators") {
        Some(Method::Validators)
    } else {
        None
    }
}

/// A method that submits a transaction.
pub open spec fn is_submit_method(m: Method) -> bool {
    ||| m == Method::BroadcastTxAsync
    ||| m == Method::BroadcastTxCommit
    ||| m == Method::BroadcastTxSync
    ||| m == Method::CheckTx
}

/// A method that resolves a transaction's status.
pub open spec fn is_status_method(m: Method) -> bool {
    m == Method::TxStatus || m == Method::TxStatusDetailed
}

/// What the dispatcher decided for one request.
#[derive(Debug, PartialEq, Eq)]
pub enum Dispatched {
    /// The response is already known; no backend is involved.
    Respond(Result<ResponsePayload, RpcError>),
    /// Fire-and-forget submission: hand `tx` to the ingestion worker
    /// without awaiting anything, and answer with `response` (the
    /// transaction hash) right away.
    FireAndForget { tx: SignedTransaction, response: ResponsePayload },
    /// Run the idempotent submission flow and conclude it in sync-check
    /// or validate-only fashion.
    StartSubmit { tx: SignedTransaction, tx_hash_b58: String, check_only: bool },
    /// Run the commit-wait flow: pre-check, submit, then poll to the
    /// final outcome.
    StartCommit { tx: SignedTransaction, tx_hash_b58: String },
    /// Run a status-resolve session.
    StartTxStatus { info: TransactionInfo, fetch_receipt: bool },
    /// One one-shot call to a backend worker; the reply is wrapped by
    /// `jsonify` (or the status/health rules) and passed through.
    StartView { kind: Method, params: Option<String> },
}

/// The params as the specification sees them.
pub open spec fn spec_params_view(params: Option<String>) -> Option<Seq<char>> {
    match params {
        Some(p) => Some(p@),
        None => None,
    }
}

/// What the dispatcher's decision must be for a submit method, given how
/// the params parsed: the exact stage error answered locally, or the
/// parsed transaction handed to the method's flow together with its
/// base58 content hash.
pub open spec fn spec_submit_dispatch(m: Method, pv: Option<Seq<char>>, r: Dispatched) -> bool {
    match spec_parse_tx(pv) {
        ParseTxClass::Parsed(n, s, b) => {
            if m == Method::BroadcastTxAsync {
                r matches Dispatched::FireAndForget { tx, response } && tx.nonce == n
                    && tx.signer_id@ == s && tx.body@ == b && (response matches
                ResponsePayload::Text(h) && h@ == base58_of(sha256_of(spec_tx_bytes(n, s, b))))
            } else if m == Method::BroadcastTxCommit {
                r matches Dispatched::StartCommit { tx, tx_hash_b58 } && tx.nonce == n
                    && tx.signer_id@ == s && tx.body@ == b && tx_hash_b58@ == base58_of(
                    sha256_of(spec_tx_bytes(n, s, b)),
                )
            } else {
                r matches Dispatched::StartSubmit { tx, tx_hash_b58, check_only } && tx.nonce == n
                    && tx.signer_id@ == s && tx.body@ == b && tx_hash_b58@ == base58_of(
                    sha256_of(spec_tx_bytes(n, s, b)),
                ) && check_only == (m == Method::CheckTx)
            }
        },
        c => r matches Dispatched::Respond(Err(e)) && spec_parse_tx_error(c, e),
    }
}

/// The dispatcher's whole decision for one request, by method kind: an
/// unknown name is the method-not-found error with the name echoed; a
/// submit method follows `spec_submit_dispatch`; a status method follows
/// `spec_tx_status_dispatch`; every other known method passes through to
/// a one-shot view call.
pub open spec fn spec_dispatched(method: Seq<char>, params: Option<String>, r: Dispatched) -> bool {
    match spec_route(method) {
        None => r matches Dispatched::Respond(Err(e)) && e.code == METHOD_NOT_FOUND_CODE && (
        e.data matches Some(ErrorData::Text(t)) && t@ == method),
        Some(m) => {
            if is_submit_method(m) {
                spec_submit_dispatch(m, spec_params_view(params), r)
            } else if is_status_method(m) {
                spec_tx_status_dispatch(m, spec_params_view(params), r)
            } else {
                r == (Dispatched::StartView { kind: m, params })
            }
        },
    }
}

/// Routes one decoded request.  Unknown methods and local validation
/// failures are answered on the spot and reach no backend; well-formed
/// transaction methods hand the parsed transaction to their flow; the
/// read-only methods pass through to a one-shot view call.
pub fn dispatch(method: String, params: Option<String>) -> (r: Dispatched)
    ensures
        spec_dispatched(method@, params, r),
{
    let routed = route_method(method.as_str());
    let m = match routed {
        Some(m) => m,
        None => {
            return Dispatched::Respond(Err(RpcError::method_not_found(method)));
        },
    };
    match m {
        Method::BroadcastTxAsync => {
            match parse_tx(as_deref(&params)) {
                Ok(tx) => {
                    let hash = tx.get_hash();
                    let rendered = hash.to_base();
                    Dispatched::FireAndForget { tx, response: ResponsePayload::Text(rendered) }
                },
                Err(e) => Dispatched::Respond(Err(e)),
            }
        },
        Method::BroadcastTxSync => start_submit(params, false),
        Method::CheckTx => start_submit(params, true),
        Method::BroadcastTxCommit => {
            match parse_tx(as_deref(&params)) {
                Ok(tx) => {
                    let hash = tx.get_hash();
                    let rendered = hash.to_base();
                    Dispatched::StartCommit { tx, tx_hash_b58: rendered }
                },
                Err(e) => Dispatched::Respond(Err(e)),
            }
        },
        Method::TxStatus => dispatch_tx_status(params, false),
        Method::TxStatusDetailed => dispatch_tx_status(params, true),
        _ => Dispatched::StartView { kind: m, params },
    }
}

/// The status methods' own parameter rules: a (hash, account) pair keyed
/// lookup where both decode — with an invalid account answered locally —
/// and otherwise the full-transaction form with the submit methods'
/// parsing.
pub open spec fn spec_tx_status_dispatch(
    m: Method,
    params: Option<Seq<char>>,
    r: Dispatched,
) -> bool {
    match params {
        Some(p) => match two_string_params(p) {
            Some((h, a)) => match base58_decoded(h) {
                Some(bs) => if bs.len() == 32 {
                    if valid_account_id_seq(a) {
                        r matches Dispatched::StartTxStatus { info, fetch_receipt } && (info
                            matches TransactionInfo::TransactionId { hash, account_id }
                            && hash.bytes@ == bs && account_id@ == a) && fetch_receipt == (m
                            == Method::TxStatusDetailed)
                    } else {
                        r matches Dispatched::Respond(Err(e)) && e.code == INVALID_PARAMS_CODE && (
                        e.data matches Some(ErrorData::Text(t)) && t@ == "Invalid account id"@)
                    }
                } else {
                    spec_tx_status_fallback(m, params, r)
                },
                None => spec_tx_status_fallback(m, params, r),
            },
            None => spec_tx_status_fallback(m, params, r),
        },
        None => spec_tx_status_fallback(m, params, r),
    }
}

/// The status methods' fallback: the params parsed as a full transaction.
pub open spec fn spec_tx_status_fallback(m: Method, params: Option<Seq<char>>, r: Dispatched) -> bool {
    match spec_parse_tx(params) {
        ParseTxClass::Parsed(n, s, b) => r matches Dispatched::StartTxStatus {
            info,
            fetch_receipt,
        } && (info matches TransactionInfo::Transaction(tx) && tx.nonce == n && tx.signer_id@
            == s && tx.body@ == b) && fetch_receipt == (m == Method::TxStatusDetailed),
        c => r matches Dispatched::Respond(Err(e)) && spec_parse_tx_error(c, e),
    }
}

/// `Option<String>` to `Option<&str>`.
fn as_deref(params: &Option<String>) -> (r: Option<&str>)
    ensures
        view_params(r) == spec_params_view(*params),
{
    match params {
        Some(p) => Some(p.as_str()),
        None => None,
    }
}

/// The sync-check / validate-only submit methods.
fn start_submit(params: Option<String>, check_only: bool) -> (r: Dispatched)
    ensures
        !(spec_parse_tx(spec_params_view(params)) matches ParseTxClass::Parsed(n, s, b)) ==> (r
            matches Dispatched::Respond(Err(e)) && spec_parse_tx_error(
            spec_parse_tx(spec_params_view(params)),
            e,
        )),
        spec_parse_tx(spec_params_view(params)) matches ParseTxClass::Parsed(n, s, b) ==> (r
            matches Dispatched::StartSubmit { tx, tx_hash_b58, check_only: c } && tx.nonce == n
            && tx.signer_id@ == s && tx.body@ == b && tx_hash_b58@ == base58_of(
            sha256_of(spec_tx_bytes(n, s, b)),
        ) && c == check_only),
{
    match parse_tx(as_deref(&params)) {
        Ok(tx) => {
            let hash = tx.get_hash();
            let rendered = hash.to_base();
            Dispatched::StartSubmit { tx, tx_hash_b58: rendered, check_only }
        },
        Err(e) => Dispatched::Respond(Err(e)),
    }
}

/// The status methods' parameter handling.
fn dispatch_tx_status(params: Option<String>, fetch_receipt: bool) -> (r: Dispatched)
    ensures
        spec_tx_status_dispatch(
            if fetch_receipt {
                Method::TxStatusDetailed
            } else {
                Method::TxStatus
            },
            spec_params_view(params),
            r,
        ),
        fetch_receipt == (Method::TxStatusDetailed == if fetch_receipt {
            Method::TxStatusDetailed
        } else {
            Method::TxStatus
        }),
{
    if let Some(p) = &params {
        if let Some((h, a)) = parse_two_strings(p.as_str()) {
            if let Some(hash) = CryptoHash::from_base(h.as_str()) {
                if is_valid_account_id(a.as_str()) {
                    return Dispatched::StartTxStatus {
                        info: TransactionInfo::TransactionId { hash, account_id: a },
                        fetch_receipt,
                    };
                } else {
                    return Dispatched::Respond(
                        Err(RpcError::invalid_params(String::from_str("Invalid account id"))),
                    );
                }
            }
        }
    }
    match parse_tx(as_deref(&params)) {
        Ok(tx) => Dispatched::StartTxStatus {
            info: TransactionInfo::Transaction(tx),
            fetch_receipt,
        },
        Err(e) => Dispatched::Respond(Err(e)),
    }
}

/// A routed inbound envelope: the id to echo and the dispatcher's
/// decision.
#[derive(Debug, PartialEq, Eq)]
pub struct DispatchedRequest {
    pub id: RpcId,
    pub step: Dispatched,
}

/// Takes one inbound envelope.  A request is dispatched under its own id;
/// anything else is answered as an invalid request.
pub fn process_message(msg: RpcMessage) -> (r: DispatchedRequest)
    ensures
        msg matches RpcMessage::Request(req) ==> (r.id == req.id && spec_dispatched(
            req.method@,
            req.params,
            r.step,
        )),
        msg == RpcMessage::Unrecognized ==> (r.id == RpcId::Null && (r.step matches
            Dispatched::Respond(Err(e)) && e.code == INVALID_REQUEST_CODE)),
{
    match msg {
        RpcMessage::Request(req) => DispatchedRequest {
            id: req.id,
            step: dispatch(req.method, req.params),
        },
        RpcMessage::Unrecognized => DispatchedRequest {
            id: RpcId::Null,
            step: Dispatched::Respond(Err(RpcError::invalid_request())),
        },
    }
}

/// How many methods the registry has (`light_client_proof` and its
/// experimental alias share an entry).
pub const METHOD_COUNT: usize = 22;

/// A stable index for each method's counters.
pub open spec fn spec_method_index(m: Method) -> int {
    match m {
        Method::Block => 0,
        Method::BroadcastTxAsync => 1,
        Method::BroadcastTxCommit => 2,
        Method::Chunk => 3,
        Method::BroadcastTxSync => 4,
        Method::Changes => 5,
        Method::ChangesInBlock => 6,
        Method::CheckTx => 7,
        Method::GenesisConfig => 8,
        Method::LightClientProof => 9,
        Method::ProtocolConfig => 10,
        Method::Receipt => 11,
        Method::TxStatusDetailed => 12,
        Method::ValidatorsOrdered => 13,
        Method::GasPrice => 14,
        Method::Health => 15,
        Method::NextLightClientBlock => 16,
        Method::NetworkInfo => 17,
        Method::Query => 18,
        Method::Status => 19,
        Method::TxStatus => 20,
        Method::Validators => 21,
    }
}

pub fn method_index(m: Method) -> (i: usize)
    ensures
        i == spec_method_index(m),
        i < METHOD_COUNT,
{
    match m {
        Method::Block => 0,
        Method::BroadcastTxAsync => 1,
        Method::BroadcastTxCommit => 2,
        Method::Chunk => 3,
        Method::BroadcastTxSync => 4,
        Method::Changes => 5,
        Method::ChangesInBlock => 6,
        Method::CheckTx => 7,
        Method::GenesisConfig => 8,
        Method::LightClientProof => 9,
        Method::ProtocolConfig => 10,
        Method::Receipt => 11,
        Method::TxStatusDetailed => 12,
        Method::ValidatorsOrdered => 13,
        Method::GasPrice => 14,
        Method::Health => 15,
        Method::NextLightClientBlock => 16,
        Method::NetworkInfo => 17,
        Method::Query => 18,
        Method::Status => 19,
        Method::TxStatus => 20,
        Method::Validators => 21,
    }
}

/// One more, saturating at the top.
pub open spec fn spec_bump(v: u64) -> u64 {
    if v < u64::MAX {
        (v + 1) as u64
    } else {
        v
    }
}

/// How many error-code buckets each method's error counter has: one per
/// code of the closed taxonomy, and one for anything else.
pub const ERROR_CODE_COUNT: usize = 7;

/// The bucket of an error code.
pub open spec fn spec_code_index(code: i64) -> int {
    if code == METHOD_NOT_FOUND_CODE {
        0
    } else if code == INVALID_PARAMS_CODE {
        1
    } else if code == INVALID_REQUEST_CODE {
        2
    } else if code == crate::errors::PARSE_ERROR_CODE {
        3
    } else if code == crate::errors::SERVER_ERROR_CODE {
        4
    } else if code == crate::errors::STATUS_ERROR_CODE {
        5
    } else {
        6
    }
}

pub fn code_index(code: i64) -> (i: usize)
    ensures
        i == spec_code_index(code),
        i < ERROR_CODE_COUNT,
{
    if code == METHOD_NOT_FOUND_CODE {
        0
    } else if code == INVALID_PARAMS_CODE {
        1
    } else if code == INVALID_REQUEST_CODE {
        2
    } else if code == crate::errors::PARSE_ERROR_CODE {
        3
    } else if code == crate::errors::SERVER_ERROR_CODE {
        4
    } else if code == crate::errors::STATUS_ERROR_CODE {
        5
    } else {
        6
    }
}

/// The slot of a (method, error code) pair in the flattened error table.
pub open spec fn spec_error_slot(m: Method, code: i64) -> int {
    spec_method_index(m) * ERROR_CODE_COUNT + spec_code_index(code)
}

/// Observational counters: requests per method, errors per method tagged
/// by error code, and the dedicated timeout counter.  They never affect
/// control flow.
#[derive(Debug, PartialEq, Eq)]
pub struct RpcMetrics {
    pub requests: Vec<u64>,
    /// Row-major: the buckets of method `m` start at
    /// `method_index(m) * ERROR_CODE_COUNT`.
    pub errors: Vec<u64>,
    pub timeouts: u64,
}

impl RpcMetrics {
    pub open spec fn wf(&self) -> bool {
        &&& self.requests@.len() == METHOD_COUNT
        &&& self.errors@.len() == METHOD_COUNT * ERROR_CODE_COUNT
    }

    pub fn new() -> (r: RpcMetrics)
        ensures
            r.wf(),
            forall|i: int| 0 <= i < METHOD_COUNT ==> r.requests@[i] == 0,
            forall|i: int| 0 <= i < METHOD_COUNT * ERROR_CODE_COUNT ==> r.errors@[i] == 0,
            r.timeouts == 0,
    {
        let mut requests: Vec<u64> = Vec::new();
        let mut i: usize = 0;
        while i < METHOD_COUNT
            invariant
                i <= METHOD_COUNT,
                requests@.len() == i,
                forall|j: int| 0 <= j < i ==> requests@[j] == 0,
            decreases METHOD_COUNT - i,
        {
            requests.push(0);
            i += 1;
        }
        let mut errors: Vec<u64> = Vec::new();
        let mut k: usize = 0;
        while k < METHOD_COUNT * ERROR_CODE_COUNT
            invariant
                k <= METHOD_COUNT * ERROR_CODE_COUNT,
                errors@.len() == k,
                forall|j: int| 0 <= j < k ==> errors@[j] == 0,
            decreases METHOD_COUNT * ERROR_CODE_COUNT - k,
        {
            errors.push(0);
            k += 1;
        }
        RpcMetrics { requests, errors, timeouts: 0 }
    }

    /// Counts one routed call of the method.
    pub fn record_request(&mut self, m: Method)
        requires
            old(self).wf(),
        ensures
            final(self).wf(),
            final(self).requests@ == old(self).requests@.update(
                spec_method_index(m),
                spec_bump(old(self).requests@[spec_method_index(m)]),
            ),
            final(self).errors == old(self).errors,
            final(self).timeouts == old(self).timeouts,
    {
        let i = method_index(m);
        let v = self.requests[i];
        let bumped = if v < u64::MAX {
            v + 1
        } else {
            v
        };
        self.requests.set(i, bumped);
    }

    /// Counts one call of the method that ended in an error with the
    /// given code.
    pub fn record_error(&mut self, m: Method, code: i64)
        requires
            old(self).wf(),
        ensures
            final(self).wf(),
            final(self).errors@ == old(self).errors@.update(
                spec_error_slot(m, code),
                spec_bump(old(self).errors@[spec_error_slot(m, code)]),
            ),
            final(self).requests == old(self).requests,
            final(self).timeouts == old(self).timeouts,
    {
        let i = method_index(m) * ERROR_CODE_COUNT + code_index(code);
        let v = self.errors[i];
        let bumped = if v < u64::MAX {
            v + 1
        } else {
            v
        };
        self.errors.set(i, bumped);
    }

    /// Counts one elapsed polling deadline.
    pub fn record_timeout(&mut self)
        ensures
            final(self).timeouts == spec_bump(old(self).timeouts),
            final(self).requests == old(self).requests,
            final(self).errors == old(self).errors,
    {
        if self.timeouts < u64::MAX {
            self.timeouts = self.timeouts + 1;
        }
    }
}

} // verus!
