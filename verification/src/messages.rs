//! Models of the backend workers' replies, as the request layer consumes
//! them.  The workers themselves live outside this crate; these types are
//! the exact shape of what their messages carry for the decisions made
//! here.

use vstd::prelude::*;
use crate::errors::{InvalidTxError, MailboxError, TxStatusError};

verus! {

/// The ingestion worker's reply to a submitted transaction.
#[derive(Debug, Clone, PartialEq, Eq)]
pub enum ClientResponse {
    /// Accepted as new.
    ValidTx,
    /// Accepted, but routed to a node tracking the right shard.
    RequestRouted,
    /// Rejected with a reason.
    InvalidTx(InvalidTxError),
    /// This node cannot decide: it does not track the shard.
    DoesNotTrackShard,
    /// The worker chose not to answer.
    NoResponse,
    /// Any reply outside the declared protocol.
    Unexpected,
}

/// The terminal, immutable result of a transaction's execution, carried
/// opaquely (the layer never looks inside it).
#[derive(Debug, Clone, PartialEq, Eq)]
pub struct ExecutionOutcome {
    pub data: String,
}

/// One reply of the view worker to a status probe.
#[derive(Debug, Clone, PartialEq, Eq)]
pub enum StatusReply {
    /// A final outcome exists.
    Executed(ExecutionOutcome),
    /// The transaction is known but has no final outcome yet.
    NotReady,
    /// The lookup failed.
    Failed(TxStatusError),
    /// The worker could not be reached.
    Unreachable(MailboxError),
}

impl ClientResponse {
    /// An identical copy.
    pub fn duplicate(&self) -> (r: ClientResponse)
        ensures
            r == *self,
    {
        match self {
            ClientResponse::ValidTx => ClientResponse::ValidTx,
            ClientResponse::RequestRouted => ClientResponse::RequestRouted,
            ClientResponse::InvalidTx(e) => ClientResponse::InvalidTx(e.duplicate()),
            ClientResponse::DoesNotTrackShard => ClientResponse::DoesNotTrackShard,
            ClientResponse::NoResponse => ClientResponse::NoResponse,
            ClientResponse::Unexpected => ClientResponse::Unexpected,
        }
    }
}

impl ExecutionOutcome {
    /// An identical copy.
    pub fn duplicate(&self) -> (r: ExecutionOutcome)
        ensures
            r == *self,
    {
        ExecutionOutcome { data: self.data.clone() }
    }
}

impl StatusReply {
    /// An identical copy.
    pub fn duplicate(&self) -> (r: StatusReply)
        ensures
            r == *self,
    {
        match self {
            StatusReply::Executed(o) => StatusReply::Executed(o.duplicate()),
            StatusReply::NotReady => StatusReply::NotReady,
            StatusReply::Failed(e) => StatusReply::Failed(e.duplicate()),
            StatusReply::Unreachable(m) => StatusReply::Unreachable(*m),
        }
    }
}

} // verus!
