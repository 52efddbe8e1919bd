//! Conclusions of the read-only view calls whose handling goes beyond a
//! plain pass-through: the node status and health checks with their own
//! error code, the receipt lookup with its not-found case, and the
//! two-step reads (state changes keyed by a resolved block, and the
//! light-client execution proof) with their distinct error mapping at
//! each step.

use vstd::prelude::*;
use crate::envelope::ResponsePayload;
use crate::errors::{
    ErrorData, MailboxError, RpcError, SERVER_ERROR_CODE, STATUS_ERROR_CODE,
    spec_server_error_of_mailbox,
};
use crate::submit::is_server_error_rpc;

verus! {

/// Concludes the node-status and health calls: a healthy reply is null
/// for the health check and the payload otherwise; the worker's own
/// error text travels under the status code; an unreachable worker is a
/// bare server error.
pub fn finish_status(
    reply: Result<Result<String, String>, MailboxError>,
    health_check: bool,
) -> (r: Result<ResponsePayload, RpcError>)
    ensures
        reply matches Ok(Ok(payload)) ==> r == if health_check {
            Ok::<ResponsePayload, RpcError>(ResponsePayload::Null)
        } else {
            Ok::<ResponsePayload, RpcError>(ResponsePayload::Raw(payload))
        },
        reply matches Ok(Err(text)) ==> (r matches Err(e) && e.code == STATUS_ERROR_CODE
            && e.message == text && e.data is None),
        (reply matches Err(_)) ==> (r matches Err(e) && e.code == SERVER_ERROR_CODE && e.data
            is None),
{
    match reply {
        Ok(Ok(payload)) => {
            if health_check {
                Ok(ResponsePayload::Null)
            } else {
                Ok(ResponsePayload::Raw(payload))
            }
        },
        Ok(Err(text)) => Err(RpcError::new(STATUS_ERROR_CODE, text, None)),
        Err(_) => Err(RpcError::server_error_none()),
    }
}

/// Concludes the receipt lookup: the worker answers with the receipt
/// where one exists, and its absence is a typed business error naming
/// the receipt asked for — not an internal failure.
pub fn finish_receipt(
    reply: Result<Result<Option<String>, String>, MailboxError>,
    receipt_id_b58: String,
) -> (r: Result<ResponsePayload, RpcError>)
    ensures
        reply matches Ok(Ok(Some(payload))) ==> r == Ok::<ResponsePayload, RpcError>(
            ResponsePayload::Raw(payload),
        ),
        reply == Ok::<Result<Option<String>, String>, MailboxError>(
            Ok::<Option<String>, String>(None),
        ) ==> (r matches Err(e) && e.code == SERVER_ERROR_CODE && (e.data matches Some(
            ErrorData::Text(t),
        ) && t == receipt_id_b58)),
        reply matches Ok(Err(text)) ==> (r matches Err(e) && e.code == SERVER_ERROR_CODE
            && e.data == Some(ErrorData::Text(text))),
        reply matches Err(m) ==> (r matches Err(e) && is_server_error_rpc(
            e,
            spec_server_error_of_mailbox(m),
        )),
{
    match reply {
        Ok(Ok(Some(payload))) => Ok(ResponsePayload::Raw(payload)),
        Ok(Ok(None)) => Err(
            RpcError {
                code: SERVER_ERROR_CODE,
                message: String::from_str("Unknown receipt"),
                data: Some(ErrorData::Text(receipt_id_b58)),
            },
        ),
        Ok(Err(text)) => Err(RpcError::server_error_text(text)),
        Err(m) => Err(RpcError::server_error(crate::errors::server_error_of_mailbox(&m))),
    }
}

/// The first step of a state-changes read: the block the request refers
/// to must resolve first.  Its business error passes through unchanged;
/// an unreachable worker is the server error of its kind.
pub fn changes_after_block(reply: Result<Result<String, String>, MailboxError>) -> (r: Result<
    String,
    RpcError,
>)
    ensures
        reply matches Ok(Ok(block_hash)) ==> r == Ok::<String, RpcError>(block_hash),
        reply matches Ok(Err(text)) ==> (r matches Err(e) && e.code == SERVER_ERROR_CODE
            && e.data == Some(ErrorData::Text(text))),
        reply matches Err(m) ==> (r matches Err(e) && is_server_error_rpc(
            e,
            spec_server_error_of_mailbox(m),
        )),
{
    match reply {
        Ok(Ok(block_hash)) => Ok(block_hash),
        Ok(Err(text)) => Err(RpcError::server_error_text(text)),
        Err(m) => Err(RpcError::server_error(crate::errors::server_error_of_mailbox(&m))),
    }
}

/// The second step of a state-changes read: the changes, echoing the
/// hash of the block they were read at.
pub fn changes_response(
    block_hash_b58: String,
    reply: Result<Result<String, String>, MailboxError>,
) -> (r: Result<ResponsePayload, RpcError>)
    ensures
        reply matches Ok(Ok(changes)) ==> r == Ok::<ResponsePayload, RpcError>(
            ResponsePayload::Changes { block_hash_b58, changes },
        ),
        reply matches Ok(Err(text)) ==> (r matches Err(e) && e.code == SERVER_ERROR_CODE
            && e.data == Some(ErrorData::Text(text))),
        reply matches Err(m) ==> (r matches Err(e) && e.code == SERVER_ERROR_CODE && (e.data
            matches Some(ErrorData::Text(t)) && t@ == crate::envelope::spec_mailbox_text(m))),
{
    match reply {
        Ok(Ok(changes)) => Ok(ResponsePayload::Changes { block_hash_b58, changes }),
        Ok(Err(text)) => Err(RpcError::server_error_text(text)),
        Err(m) => Err(RpcError::server_error_text(m.describe())),
    }
}

/// The first step of a light-client execution proof: the execution
/// outcome proof.  Both failure lanes are server errors — the worker's
/// own error carried as text, the unreachable worker as its kind.
pub fn proof_after_outcome(reply: Result<Result<String, String>, MailboxError>) -> (r: Result<
    String,
    RpcError,
>)
    ensures
        reply matches Ok(Ok(outcome_proof)) ==> r == Ok::<String, RpcError>(outcome_proof),
        reply matches Ok(Err(text)) ==> (r matches Err(e) && e.code == SERVER_ERROR_CODE
            && e.data == Some(ErrorData::Text(text))),
        reply matches Err(m) ==> (r matches Err(e) && is_server_error_rpc(
            e,
            spec_server_error_of_mailbox(m),
        )),
{
    match reply {
        Ok(Ok(outcome_proof)) => Ok(outcome_proof),
        Ok(Err(text)) => Err(RpcError::server_error_text(text)),
        Err(m) => Err(RpcError::server_error(crate::errors::server_error_of_mailbox(&m))),
    }
}

/// The second step of a light-client execution proof: the block proof,
/// joined with the outcome proof of the first step.
pub fn proof_response(
    outcome_proof: String,
    reply: Result<Result<String, String>, MailboxError>,
) -> (r: Result<ResponsePayload, RpcError>)
    ensures
        reply matches Ok(Ok(block_proof)) ==> r == Ok::<ResponsePayload, RpcError>(
            ResponsePayload::LightClientProof { outcome_proof, block_proof },
        ),
        reply matches Ok(Err(text)) ==> (r matches Err(e) && e.code == SERVER_ERROR_CODE
            && e.data == Some(ErrorData::Text(text))),
        reply matches Err(m) ==> (r matches Err(e) && is_server_error_rpc(
            e,
            spec_server_error_of_mailbox(m),
        )),
{
    match reply {
        Ok(Ok(block_proof)) => Ok(ResponsePayload::LightClientProof { outcome_proof, block_proof }),
        Ok(Err(text)) => Err(RpcError::server_error_text(text)),
        Err(m) => Err(RpcError::server_error(crate::errors::server_error_of_mailbox(&m))),
    }
}

} // verus!
