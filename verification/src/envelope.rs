//! The request/response envelope: every inbound request yields exactly
//! one response envelope, with the caller's id echoed verbatim.

use vstd::prelude::*;
use crate::errors::{RpcError, MailboxError, ErrorData, SERVER_ERROR_CODE};
use crate::messages::ExecutionOutcome;

verus! {

/// The opaque request id, echoed back verbatim.
#[derive(Debug, Clone, PartialEq, Eq)]
pub enum RpcId {
    Number(i64),
    Text(String),
    Null,
}

/// Acknowledgment of a submission in sync-check mode.
#[derive(Debug, Clone, PartialEq, Eq)]
pub struct BroadcastTxSyncResponse {
    /// The content hash, base58-rendered.
    pub transaction_hash: String,
    /// Whether the transaction was routed to a node of another shard.
    pub is_routed: bool,
}

/// The typed result a successful call serializes to the wire.
#[derive(Debug, Clone, PartialEq, Eq)]
pub enum ResponsePayload {
    /// An explicit null result.
    Null,
    /// A bare string (a transaction hash).
    Text(String),
    /// A backend-produced document, passed through unchanged.
    Raw(String),
    /// A submission acknowledgment.
    TxSync(BroadcastTxSyncResponse),
    /// A final execution outcome.
    Outcome(ExecutionOutcome),
    /// State changes, echoing the hash of the block they were read at.
    Changes { block_hash_b58: String, changes: String },
    /// A light-client execution proof: the outcome proof joined with the
    /// block proof.
    LightClientProof { outcome_proof: String, block_proof: String },
}

/// A decoded inbound request.
#[derive(Debug, Clone, PartialEq, Eq)]
pub struct RpcRequest {
    pub id: RpcId,
    pub method: String,
    /// The params value as raw JSON text, where any were given.
    pub params: Option<String>,
}

/// An inbound envelope: a request, or anything else (a response or
/// notification), which the endpoint does not serve.
#[derive(Debug, Clone, PartialEq, Eq)]
pub enum RpcMessage {
    Request(RpcRequest),
    Unrecognized,
}

/// The single outbound envelope: either a typed result or the error
/// object, never both, never partial results.
#[derive(Debug, PartialEq, Eq)]
pub struct RpcResponse {
    pub id: RpcId,
    pub result: Result<ResponsePayload, RpcError>,
}

/// Builds the one response envelope for a request, echoing its id.
pub fn respond(id: RpcId, result: Result<ResponsePayload, RpcError>) -> (r: RpcResponse)
    ensures
        r.id == id,
        r.result == result,
{
    RpcResponse { id, result }
}

impl MailboxError {
    /// The textual rendering of a mailbox failure.
    pub fn describe(&self) -> (r: String)
        ensures
            *self == MailboxError::Closed ==> r@ == "Mailbox has closed"@,
            *self == MailboxError::Timeout ==> r@ == "Message delivery timed out"@,
    {
        match self {
            MailboxError::Closed => String::from_str("Mailbox has closed"),
            MailboxError::Timeout => String::from_str("Message delivery timed out"),
        }
    }
}

/// Wraps a one-shot backend reply: the payload passes through unchanged
/// on success; any failure — business-level text or an unreachable
/// worker — becomes one server error with that text attached.
pub fn jsonify(reply: Result<Result<String, String>, MailboxError>) -> (r: Result<
    ResponsePayload,
    RpcError,
>)
    ensures
        reply matches Ok(Ok(payload)) ==> r == Ok::<ResponsePayload, RpcError>(
            ResponsePayload::Raw(payload),
        ),
        reply matches Ok(Err(business)) ==> (r matches Err(e) && e.code == SERVER_ERROR_CODE
            && e.data == Some(ErrorData::Text(business))),
        reply matches Err(m) ==> (r matches Err(e) && e.code == SERVER_ERROR_CODE && (e.data
            matches Some(ErrorData::Text(t)) && t@ == spec_mailbox_text(m))),
{
    match reply {
        Ok(Ok(payload)) => Ok(ResponsePayload::Raw(payload)),
        Ok(Err(business)) => Err(RpcError::server_error_text(business)),
        Err(m) => Err(RpcError::server_error_text(m.describe())),
    }
}

/// The text under which a mailbox failure is reported.
pub open spec fn spec_mailbox_text(m: MailboxError) -> Seq<char> {
    match m {
        MailboxError::Closed => "Mailbox has closed"@,
        MailboxError::Timeout => "Message delivery timed out"@,
    }
}

} // verus!
