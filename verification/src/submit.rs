//! The transaction submitter: forwards a transaction to the ingestion
//! worker and decides, from the worker's reply, whether the submission is
//! new, duplicate, or invalid.
//!
//! Idempotence: a rejection for a duplicate nonce is not taken at face
//! value.  The submitter first probes whether the identical transaction
//! hash already exists for the signer; only if it does not is the
//! rejection surfaced.  Resubmitting an already-accepted transaction thus
//! never surfaces an error.

use vstd::prelude::*;
use crate::errors::{
    ErrorData, InvalidTxError, MailboxError, RpcError, ServerError, TxExecutionError,
    TxStatusError, SERVER_ERROR_CODE, spec_server_error_of_mailbox, server_error_of_mailbox,
    tx_status_error_text,
};
use crate::messages::{ClientResponse, StatusReply};
use crate::envelope::{BroadcastTxSyncResponse, ResponsePayload};
use crate::resolve::{ResolveAction, RunStatus};

verus! {

/// Whether an error object is the server error of the given kind.
pub open spec fn is_server_error_rpc(e: RpcError, kind: ServerError) -> bool {
    &&& e.code == SERVER_ERROR_CODE
    &&& e.message@ == "Server error"@
    &&& e.data == Some(ErrorData::Server(kind))
}

/// Whether a decided submission matches the mathematical outcome: an
/// accepted reply verbatim, or the server error of the failure's kind.
pub open spec fn done_matches(
    d: Option<Result<ClientResponse, RpcError>>,
    s: Result<ClientResponse, ServerError>,
) -> bool {
    match s {
        Ok(c) => d == Some(Ok::<ClientResponse, RpcError>(c)),
        Err(kind) => d matches Some(Err(e)) && is_server_error_rpc(e, kind),
    }
}

/// The submission outcome as a function of the worker's acknowledgment
/// and — consulted only on a duplicate-nonce rejection — the existence
/// probe's result.
pub open spec fn spec_submission_outcome(
    ack: Result<ClientResponse, MailboxError>,
    probe: Result<bool, ServerError>,
) -> Result<ClientResponse, ServerError> {
    match ack {
        Err(m) => Err(spec_server_error_of_mailbox(m)),
        Ok(response) => {
            if response matches ClientResponse::InvalidTx(InvalidTxError::InvalidNonce { .. }) {
                match probe {
                    Ok(true) => Ok(ClientResponse::ValidTx),
                    Ok(false) => Ok(response),
                    Err(e) => Err(e),
                }
            } else {
                Ok(response)
            }
        },
    }
}

/// What the submitter asks its driver to do next.
#[derive(Debug, Clone, Copy, PartialEq, Eq)]
pub enum SubmitAction {
    /// Run the bounded existence check for the transaction's hash and
    /// signer, and report back.
    Probe,
    /// The submission is decided; its result is in `done`.
    Stop,
}

/// The state of one idempotent submission.
#[derive(Debug, PartialEq, Eq)]
pub struct Submitter {
    /// An existence probe is under way and its result is still out.
    pub probing: bool,
    /// The duplicate-nonce rejection held back while probing.
    pub pending: Option<ClientResponse>,
    /// The submission's result, once decided.
    pub done: Option<Result<ClientResponse, RpcError>>,
}

impl Submitter {
    pub open spec fn spec_start() -> Submitter {
        Submitter { probing: false, pending: None, done: None }
    }

    pub fn start() -> (r: Submitter)
        ensures
            r == Submitter::spec_start(),
    {
        Submitter { probing: false, pending: None, done: None }
    }

    /// Feeds the ingestion worker's acknowledgment (or the failure to get
    /// one) to a fresh submission.  Everything but a duplicate-nonce
    /// rejection decides the submission on the spot.
    pub fn on_ack(&mut self, reply: Result<ClientResponse, MailboxError>) -> (a: SubmitAction)
        requires
            !old(self).probing,
            old(self).done is None,
        ensures
            a == SubmitAction::Probe <==> (reply matches Ok(response) && (response matches
                ClientResponse::InvalidTx(InvalidTxError::InvalidNonce { .. }))),
            a == SubmitAction::Probe ==> {
                &&& final(self).probing
                &&& final(self).done is None
                &&& (reply matches Ok(response) && final(self).pending == Some(response))
            },
            a == SubmitAction::Stop ==> !final(self).probing && (forall|p: Result<bool, ServerError>|
                done_matches(final(self).done, #[trigger] spec_submission_outcome(reply, p))),
    {
        match reply {
            Err(m) => {
                let kind = server_error_of_mailbox(&m);
                self.done = Some(Err(RpcError::server_error(kind)));
                SubmitAction::Stop
            },
            Ok(response) => {
                if matches!(
                    response,
                    ClientResponse::InvalidTx(InvalidTxError::InvalidNonce { .. })
                ) {
                    self.probing = true;
                    self.pending = Some(response);
                    SubmitAction::Probe
                } else {
                    self.done = Some(Ok(response));
                    SubmitAction::Stop
                }
            },
        }
    }

    /// Feeds the existence probe's result.  A hash that already exists
    /// turns the held-back rejection into an acceptance; one that does
    /// not restores the rejection; a failed probe fails the submission.
    pub fn on_probe(&mut self, exists: Result<bool, ServerError>) -> (a: SubmitAction)
        requires
            old(self).probing,
            old(self).pending matches Some(held) && (held matches ClientResponse::InvalidTx(
                InvalidTxError::InvalidNonce { .. },
            )),
            old(self).done is None,
        ensures
            a == SubmitAction::Stop,
            !final(self).probing,
            (old(self).pending matches Some(held) ==> done_matches(
                final(self).done,
                spec_submission_outcome(Ok(held), exists),
            )),
    {
        self.probing = false;
        match exists {
            Ok(true) => {
                self.done = Some(Ok(ClientResponse::ValidTx));
            },
            Ok(false) => {
                let held = self.pending.take();
                match held {
                    Some(response) => {
                        self.done = Some(Ok(response));
                    },
                    None => {
                        self.done = Some(Ok(ClientResponse::Unexpected));
                    },
                }
            },
            Err(e) => {
                self.done = Some(Err(RpcError::server_error(e)));
            },
        }
        SubmitAction::Stop
    }
}

/// One bounded existence check: does a status record exist for a hash?
#[derive(Debug, PartialEq, Eq)]
pub struct ExistenceProbe {
    /// The check's result, once known: found, explicitly missing, the
    /// internal error of an unreachable worker, or the uniform timeout.
    pub done: Option<Result<bool, ServerError>>,
}

impl ExistenceProbe {
    pub fn start() -> (r: ExistenceProbe)
        ensures
            r.done is None,
    {
        ExistenceProbe { done: None }
    }

    /// Concludes a check whose deadline elapsed: the uniform timeout.
    pub fn conclude_timeout(&mut self)
        requires
            old(self).done is None,
        ensures
            final(self).done == Some(Err::<bool, ServerError>(ServerError::Timeout)),
    {
        self.done = Some(Err(ServerError::Timeout));
    }

    /// Feeds one status reply.  Found and explicitly-missing conclude the
    /// check; an unreachable worker fails it; everything else (not ready,
    /// other lookup failures) is retried.
    pub fn on_status(&mut self, reply: StatusReply) -> (a: ResolveAction)
        requires
            old(self).done is None,
        ensures
            a != ResolveAction::Resubmit,
            (reply matches StatusReply::Executed(_)) ==> (a == ResolveAction::Stop && final(self).done == Some(Ok::<bool, ServerError>(true))),
            reply == StatusReply::Failed(TxStatusError::MissingTransaction) ==> (a
                == ResolveAction::Stop && final(self).done == Some(Ok::<bool, ServerError>(false))),
            (reply matches StatusReply::Unreachable(_)) ==> (a == ResolveAction::Stop && final(self).done == Some(Err::<bool, ServerError>(ServerError::InternalError))),
            (reply == StatusReply::NotReady || (reply matches StatusReply::Failed(e) && e
                != TxStatusError::MissingTransaction)) ==> (a == ResolveAction::Poll && final(self).done is None),
    {
        match reply {
            StatusReply::Executed(_) => {
                self.done = Some(Ok(true));
                ResolveAction::Stop
            },
            StatusReply::NotReady => ResolveAction::Poll,
            StatusReply::Failed(e) => {
                if matches!(e, TxStatusError::MissingTransaction) {
                    self.done = Some(Ok(false));
                    ResolveAction::Stop
                } else {
                    ResolveAction::Poll
                }
            },
            StatusReply::Unreachable(_) => {
                self.done = Some(Err(ServerError::InternalError));
                ResolveAction::Stop
            },
        }
    }
}

/// The text returned when this node does not track the shard.
pub open spec fn shard_text() -> Seq<char> {
    "Node doesn't track this shard. Cannot determine whether the transaction is valid"@
}

/// Turns a decided submission into the sync-check or validate-only
/// response: acceptance acknowledges with the hash (or null when only
/// validating), routing elsewhere acknowledges as routed (but cannot
/// satisfy a validate-only call), rejection and an untracked shard are
/// server errors, and anything else is an internal error.
pub fn conclude_submission(outcome: ClientResponse, check_only: bool, tx_hash_b58: String) -> (r:
    Result<ResponsePayload, RpcError>)
    ensures
        outcome == ClientResponse::ValidTx && check_only ==> r == Ok::<ResponsePayload, RpcError>(
            ResponsePayload::Null,
        ),
        outcome == ClientResponse::ValidTx && !check_only ==> (r matches Ok(
            ResponsePayload::TxSync(b),
        ) && b.transaction_hash == tx_hash_b58 && !b.is_routed),
        outcome == ClientResponse::RequestRouted && !check_only ==> (r matches Ok(
            ResponsePayload::TxSync(b),
        ) && b.transaction_hash == tx_hash_b58 && b.is_routed),
        outcome == ClientResponse::RequestRouted && check_only ==> (r matches Err(e) && e.code
            == SERVER_ERROR_CODE && (e.data matches Some(ErrorData::Text(t)) && t@
            == shard_text())),
        outcome matches ClientResponse::InvalidTx(err) ==> (r matches Err(e)
            && is_server_error_rpc(
            e,
            ServerError::TxExecutionError(TxExecutionError::InvalidTx(err)),
        )),
        outcome == ClientResponse::DoesNotTrackShard ==> (r matches Err(e) && e.code
            == SERVER_ERROR_CODE && (e.data matches Some(ErrorData::Text(t)) && t@
            == shard_text())),
        (outcome == ClientResponse::NoResponse || outcome == ClientResponse::Unexpected) ==> (r
            matches Err(e) && is_server_error_rpc(e, ServerError::InternalError)),
{
    match outcome {
        ClientResponse::ValidTx => {
            if check_only {
                Ok(ResponsePayload::Null)
            } else {
                Ok(
                    ResponsePayload::TxSync(
                        BroadcastTxSyncResponse {
                            transaction_hash: tx_hash_b58,
                            is_routed: false,
                        },
                    ),
                )
            }
        },
        ClientResponse::RequestRouted => {
            if check_only {
                Err(
                    RpcError::server_error_text(
                        String::from_str(
                            "Node doesn't track this shard. Cannot determine whether the transaction is valid",
                        ),
                    ),
                )
            } else {
                Ok(
                    ResponsePayload::TxSync(
                        BroadcastTxSyncResponse {
                            transaction_hash: tx_hash_b58,
                            is_routed: true,
                        },
                    ),
                )
            }
        },
        ClientResponse::InvalidTx(err) => Err(
            RpcError::server_error(
                ServerError::TxExecutionError(TxExecutionError::InvalidTx(err)),
            ),
        ),
        ClientResponse::DoesNotTrackShard => Err(
            RpcError::server_error_text(
                String::from_str(
                    "Node doesn't track this shard. Cannot determine whether the transaction is valid",
                ),
            ),
        ),
        ClientResponse::NoResponse => Err(RpcError::server_error(ServerError::InternalError)),
        ClientResponse::Unexpected => Err(RpcError::server_error(ServerError::InternalError)),
    }
}

/// Whether a concluded submission hands the commit-wait flow over to the
/// final polling session.
pub open spec fn spec_commit_proceeds_to_poll(outcome: Result<ClientResponse, RpcError>) -> bool {
    ||| outcome == Ok::<ClientResponse, RpcError>(ClientResponse::ValidTx)
    ||| outcome == Ok::<ClientResponse, RpcError>(ClientResponse::RequestRouted)
}

/// The next step of a commit-wait submission.
#[derive(Debug, PartialEq, Eq)]
pub enum CommitNext {
    /// Answer the caller now.
    Respond(Result<ResponsePayload, RpcError>),
    /// Go on: submit the transaction to the ingestion worker.
    Submit,
    /// Go on: poll for the final outcome.
    Poll,
}

/// Decides after the pre-submission status check: an outcome that already
/// exists is returned at once (the submission is not repeated); a known
/// invalidity is returned as its execution error; everything else
/// proceeds to submission.
pub fn commit_after_precheck(probe: Result<crate::messages::ExecutionOutcome, TxStatusError>) -> (n:
    CommitNext)
    ensures
        probe matches Ok(o) ==> n == CommitNext::Respond(
            Ok::<ResponsePayload, RpcError>(ResponsePayload::Outcome(o)),
        ),
        probe matches Err(TxStatusError::InvalidTx(err)) ==> (n matches CommitNext::Respond(
            Err(e),
        ) && is_server_error_rpc(
            e,
            ServerError::TxExecutionError(TxExecutionError::InvalidTx(err)),
        )),
        probe matches Err(other) && !(other matches TxStatusError::InvalidTx(_)) ==> n
            == CommitNext::Submit,
{
    match probe {
        Ok(o) => CommitNext::Respond(Ok(ResponsePayload::Outcome(o))),
        Err(TxStatusError::InvalidTx(err)) => CommitNext::Respond(
            Err(
                RpcError::server_error(
                    ServerError::TxExecutionError(TxExecutionError::InvalidTx(err)),
                ),
            ),
        ),
        Err(_) => CommitNext::Submit,
    }
}

/// Decides after the submission: acceptance (new or routed) proceeds to
/// polling; rejection is its execution error; any other reply — a worker
/// that chose not to answer, an untracked shard, anything undeclared —
/// is an internal error; a failure of the submission itself is passed
/// through.
pub fn commit_after_submit(outcome: Result<ClientResponse, RpcError>) -> (n: CommitNext)
    ensures
        n == CommitNext::Poll <==> spec_commit_proceeds_to_poll(outcome),
        outcome matches Ok(ClientResponse::InvalidTx(err)) ==> (n matches CommitNext::Respond(
            Err(e),
        ) && is_server_error_rpc(
            e,
            ServerError::TxExecutionError(TxExecutionError::InvalidTx(err)),
        )),
        (outcome == Ok::<ClientResponse, RpcError>(ClientResponse::NoResponse) || outcome == Ok::<
            ClientResponse,
            RpcError,
        >(ClientResponse::DoesNotTrackShard) || outcome == Ok::<ClientResponse, RpcError>(
            ClientResponse::Unexpected,
        )) ==> (n matches CommitNext::Respond(Err(e)) && is_server_error_rpc(
            e,
            ServerError::InternalError,
        )),
        outcome matches Err(e) ==> n == CommitNext::Respond(
            Err::<ResponsePayload, RpcError>(e),
        ),
{
    match outcome {
        Ok(ClientResponse::ValidTx) => CommitNext::Poll,
        Ok(ClientResponse::RequestRouted) => CommitNext::Poll,
        Ok(ClientResponse::InvalidTx(err)) => CommitNext::Respond(
            Err(
                RpcError::server_error(
                    ServerError::TxExecutionError(TxExecutionError::InvalidTx(err)),
                ),
            ),
        ),
        Ok(_) => CommitNext::Respond(Err(RpcError::server_error(ServerError::InternalError))),
        Err(e) => CommitNext::Respond(Err(e)),
    }
}

/// Turns how the final polling session ended into the commit-wait
/// response: a final outcome is the result; a lookup failure is a server
/// error with its text; the elapsed deadline is the uniform timeout.
pub fn commit_after_poll(status: RunStatus) -> (r: Result<ResponsePayload, RpcError>)
    ensures
        status matches RunStatus::Finished(Ok(o)) ==> r == Ok::<ResponsePayload, RpcError>(
            ResponsePayload::Outcome(o),
        ),
        status matches RunStatus::Finished(Err(err)) ==> (r matches Err(e) && e.code
            == SERVER_ERROR_CODE && (e.data matches Some(ErrorData::Text(t)) && t@
            == crate::errors::spec_tx_status_error_text(err))),
        status == RunStatus::TimedOut ==> (r matches Err(e) && is_server_error_rpc(
            e,
            ServerError::Timeout,
        )),
        status == RunStatus::Exhausted ==> (r matches Err(e) && is_server_error_rpc(
            e,
            ServerError::InternalError,
        )),
{
    match status {
        RunStatus::Finished(Ok(o)) => Ok(ResponsePayload::Outcome(o)),
        RunStatus::Finished(Err(err)) => Err(
            RpcError::server_error_text(tx_status_error_text(&err)),
        ),
        RunStatus::TimedOut => Err(RpcError::timeout_error()),
        RunStatus::Exhausted => Err(RpcError::server_error(ServerError::InternalError)),
    }
}

/// Turns how a plain status-lookup session ended into the response of the
/// status methods: the outcome, or a server error carrying the failure's
/// text; the elapsed deadline reports as the timeout's text.
pub fn finish_tx_status(status: RunStatus) -> (r: Result<ResponsePayload, RpcError>)
    ensures
        status matches RunStatus::Finished(Ok(o)) ==> r == Ok::<ResponsePayload, RpcError>(
            ResponsePayload::Outcome(o),
        ),
        status matches RunStatus::Finished(Err(err)) ==> (r matches Err(e) && e.code
            == SERVER_ERROR_CODE && (e.data matches Some(ErrorData::Text(t)) && t@
            == crate::errors::spec_tx_status_error_text(err))),
        status == RunStatus::TimedOut ==> (r matches Err(e) && e.code == SERVER_ERROR_CODE && (
        e.data matches Some(ErrorData::Text(t)) && t@ == crate::errors::spec_tx_status_error_text(
            TxStatusError::TimeoutError,
        ))),
        status == RunStatus::Exhausted ==> (r matches Err(e) && is_server_error_rpc(
            e,
            ServerError::InternalError,
        )),
{
    match status {
        RunStatus::Finished(Ok(o)) => Ok(ResponsePayload::Outcome(o)),
        RunStatus::Finished(Err(err)) => Err(
            RpcError::server_error_text(tx_status_error_text(&err)),
        ),
        RunStatus::TimedOut => Err(
            RpcError::server_error_text(tx_status_error_text(&TxStatusError::TimeoutError)),
        ),
        RunStatus::Exhausted => Err(RpcError::server_error(ServerError::InternalError)),
    }
}

/// Law: idempotent submission.  A submission acknowledged with a
/// duplicate-nonce rejection, whose existence probe then finds the
/// identical hash already accepted, concludes exactly as a submission
/// acknowledged as accepted-as-new: no error reaches the caller, and the
/// commit-wait flow hands both over to the same final polling session.
pub proof fn lemma_idempotent_submission(
    tx_nonce: u64,
    ak_nonce: u64,
    probe: Result<bool, ServerError>,
)
    ensures
        spec_submission_outcome(
            Ok(ClientResponse::InvalidTx(InvalidTxError::InvalidNonce { tx_nonce, ak_nonce })),
            Ok(true),
        ) == spec_submission_outcome(Ok(ClientResponse::ValidTx), probe),
        spec_submission_outcome(
            Ok(ClientResponse::InvalidTx(InvalidTxError::InvalidNonce { tx_nonce, ak_nonce })),
            Ok(true),
        ) == Ok::<ClientResponse, ServerError>(ClientResponse::ValidTx),
        spec_commit_proceeds_to_poll(Ok(ClientResponse::ValidTx)),
{
}

} // verus!
