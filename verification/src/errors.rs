//! The closed error taxonomy: every failure a backend worker can produce
//! is mapped to exactly one RPC-visible server error kind.

use vstd::prelude::*;

verus! {

/// JSON-RPC error code for a method that is not part of the surface.
pub const METHOD_NOT_FOUND_CODE: i64 = -32601;

/// JSON-RPC error code for malformed or missing parameters.
pub const INVALID_PARAMS_CODE: i64 = -32602;

/// JSON-RPC error code for a malformed request envelope.
pub const INVALID_REQUEST_CODE: i64 = -32600;

/// JSON-RPC error code for unparseable payloads.
pub const PARSE_ERROR_CODE: i64 = -32700;

/// JSON-RPC error code for server-side failures.
pub const SERVER_ERROR_CODE: i64 = -32000;

/// JSON-RPC error code used by the node-status handlers.
pub const STATUS_ERROR_CODE: i64 = -32001;

/// Failure of the request/reply channel to a backend worker: the mailbox
/// is permanently gone, or the reply did not arrive in time.  The two are
/// kept distinct and observable.
#[derive(Debug, Clone, Copy, PartialEq, Eq)]
pub enum MailboxError {
    Closed,
    Timeout,
}

/// Rejection reasons the ingestion worker can give for a transaction.
#[derive(Debug, Clone, PartialEq, Eq)]
pub enum InvalidTxError {
    /// The transaction's nonce does not exceed the nonce already used by
    /// the signer's access key; a resubmission of an accepted transaction
    /// surfaces this way.
    InvalidNonce { tx_nonce: u64, ak_nonce: u64 },
    /// Any other rejection, carried verbatim.
    Other(String),
}

/// Business-level failure of a transaction's execution.
#[derive(Debug, Clone, PartialEq, Eq)]
pub enum TxExecutionError {
    InvalidTx(InvalidTxError),
    Action(String),
}

/// The closed set of server error kinds visible through the RPC boundary.
#[derive(Debug, Clone, PartialEq, Eq)]
pub enum ServerError {
    TxExecutionError(TxExecutionError),
    Timeout,
    Closed,
    InternalError,
}

/// Failure of a status lookup at the view worker.
#[derive(Debug, Clone, PartialEq, Eq)]
pub enum TxStatusError {
    /// The view worker has no record of the transaction.
    MissingTransaction,
    /// The ingestion worker rejected a resubmission of the transaction.
    InvalidTx(InvalidTxError),
    InternalError,
    TimeoutError,
}

/// Everything a backend interaction can fail with, seen as one domain:
/// communication failures and declared business failures, plus a case for
/// anything unanticipated.
#[derive(Debug, Clone, PartialEq, Eq)]
pub enum BackendFailure {
    /// The worker could not be reached at all.
    Unreachable,
    /// The worker's mailbox reported a delivery timeout.
    MailboxTimeout,
    /// The worker's mailbox is permanently closed.
    MailboxClosed,
    /// A declared business-level execution failure.
    Execution(TxExecutionError),
    /// Anything the taxonomy did not anticipate.
    Unexpected,
}

/// Payload attached to an `RpcError`.
#[derive(Debug, Clone, PartialEq, Eq)]
pub enum ErrorData {
    Text(String),
    Server(ServerError),
}

/// The uniform error object of the response envelope.
#[derive(Debug, Clone, PartialEq, Eq)]
pub struct RpcError {
    pub code: i64,
    pub message: String,
    pub data: Option<ErrorData>,
}

/// What a mailbox failure maps to: `Closed` and `Timeout` are preserved as
/// distinct kinds.
pub open spec fn spec_server_error_of_mailbox(e: MailboxError) -> ServerError {
    match e {
        MailboxError::Closed => ServerError::Closed,
        MailboxError::Timeout => ServerError::Timeout,
    }
}

/// The total mapping from any backend failure to its server error kind.
pub open spec fn spec_map_backend_failure(f: BackendFailure) -> ServerError {
    match f {
        BackendFailure::Unreachable => ServerError::Closed,
        BackendFailure::MailboxTimeout => ServerError::Timeout,
        BackendFailure::MailboxClosed => ServerError::Closed,
        BackendFailure::Execution(cause) => ServerError::TxExecutionError(cause),
        BackendFailure::Unexpected => ServerError::InternalError,
    }
}

pub fn server_error_of_mailbox(e: &MailboxError) -> (r: ServerError)
    ensures
        r == spec_server_error_of_mailbox(*e),
{
    match e {
        MailboxError::Closed => ServerError::Closed,
        MailboxError::Timeout => ServerError::Timeout,
    }
}

pub fn server_error_of_invalid_tx(e: InvalidTxError) -> (r: ServerError)
    ensures
        r == ServerError::TxExecutionError(TxExecutionError::InvalidTx(e)),
{
    ServerError::TxExecutionError(TxExecutionError::InvalidTx(e))
}

pub fn map_backend_failure(f: BackendFailure) -> (r: ServerError)
    ensures
        r == spec_map_backend_failure(f),
{
    match f {
        BackendFailure::Unreachable => ServerError::Closed,
        BackendFailure::MailboxTimeout => ServerError::Timeout,
        BackendFailure::MailboxClosed => ServerError::Closed,
        BackendFailure::Execution(cause) => ServerError::TxExecutionError(cause),
        BackendFailure::Unexpected => ServerError::InternalError,
    }
}

/// Law: the error mapping is total and deterministic.  Every simulated
/// backend failure — unreachable worker, mailbox timeout, mailbox closure,
/// and each declared business error — yields exactly one well-defined
/// server error kind; no failure is dropped and none turns into a success.
pub proof fn lemma_total_error_mapping(f: BackendFailure)
    ensures
        f == BackendFailure::Unreachable ==> spec_map_backend_failure(f)
            == ServerError::Closed,
        f == BackendFailure::MailboxTimeout ==> spec_map_backend_failure(f)
            == ServerError::Timeout,
        f == BackendFailure::MailboxClosed ==> spec_map_backend_failure(f)
            == ServerError::Closed,
        forall|cause: TxExecutionError|
            f == BackendFailure::Execution(cause) ==> spec_map_backend_failure(f)
                == ServerError::TxExecutionError(cause),
        f == BackendFailure::Unexpected ==> spec_map_backend_failure(f)
            == ServerError::InternalError,
        spec_map_backend_failure(f) matches ServerError::TxExecutionError(c)
            ==> f == BackendFailure::Execution(c),
{
}

impl RpcError {
    pub fn new(code: i64, message: String, data: Option<ErrorData>) -> (r: RpcError)
        ensures
            r.code == code,
            r.message == message,
            r.data == data,
    {
        RpcError { code, message, data }
    }

    /// The error for a method name that the dispatcher does not know.
    /// The unknown name is echoed in the data field.
    pub fn method_not_found(method: String) -> (r: RpcError)
        ensures
            r.code == METHOD_NOT_FOUND_CODE,
            r.message@ == "Method not found"@,
            r.data == Some(ErrorData::Text(method)),
    {
        RpcError {
            code: METHOD_NOT_FOUND_CODE,
            message: String::from_str("Method not found"),
            data: Some(ErrorData::Text(method)),
        }
    }

    /// A local validation failure: never forwarded to a backend.
    pub fn invalid_params(reason: String) -> (r: RpcError)
        ensures
            r.code == INVALID_PARAMS_CODE,
            r.message@ == "Invalid params"@,
            r.data == Some(ErrorData::Text(reason)),
    {
        RpcError {
            code: INVALID_PARAMS_CODE,
            message: String::from_str("Invalid params"),
            data: Some(ErrorData::Text(reason)),
        }
    }

    /// A malformed request envelope.
    pub fn invalid_request() -> (r: RpcError)
        ensures
            r.code == INVALID_REQUEST_CODE,
            r.message@ == "Invalid request"@,
            r.data is None,
    {
        RpcError {
            code: INVALID_REQUEST_CODE,
            message: String::from_str("Invalid request"),
            data: None,
        }
    }

    /// An unparseable payload.
    pub fn parse_error(reason: String) -> (r: RpcError)
        ensures
            r.code == PARSE_ERROR_CODE,
            r.message@ == "Parse error"@,
            r.data == Some(ErrorData::Text(reason)),
    {
        RpcError {
            code: PARSE_ERROR_CODE,
            message: String::from_str("Parse error"),
            data: Some(ErrorData::Text(reason)),
        }
    }

    /// A server-side failure carrying its taxonomy kind.
    pub fn server_error(e: ServerError) -> (r: RpcError)
        ensures
            r.code == SERVER_ERROR_CODE,
            r.message@ == "Server error"@,
            r.data == Some(ErrorData::Server(e)),
    {
        RpcError {
            code: SERVER_ERROR_CODE,
            message: String::from_str("Server error"),
            data: Some(ErrorData::Server(e)),
        }
    }

    /// A server-side failure described only by text.
    pub fn server_error_text(text: String) -> (r: RpcError)
        ensures
            r.code == SERVER_ERROR_CODE,
            r.message@ == "Server error"@,
            r.data == Some(ErrorData::Text(text)),
    {
        RpcError {
            code: SERVER_ERROR_CODE,
            message: String::from_str("Server error"),
            data: Some(ErrorData::Text(text)),
        }
    }

    /// A server-side failure with nothing attached.
    pub fn server_error_none() -> (r: RpcError)
        ensures
            r.code == SERVER_ERROR_CODE,
            r.message@ == "Server error"@,
            r.data is None,
    {
        RpcError {
            code: SERVER_ERROR_CODE,
            message: String::from_str("Server error"),
            data: None,
        }
    }

    /// The uniform error for a polling deadline that elapsed.
    pub fn timeout_error() -> (r: RpcError)
        ensures
            r.code == SERVER_ERROR_CODE,
            r.message@ == "Server error"@,
            r.data == Some(ErrorData::Server(ServerError::Timeout)),
    {
        RpcError::server_error(ServerError::Timeout)
    }
}

/// The textual rendering of a rejection reason, cause included.
pub open spec fn spec_invalid_tx_text(e: InvalidTxError) -> Seq<char> {
    match e {
        InvalidTxError::InvalidNonce { tx_nonce, ak_nonce } => "Transaction nonce "@
            + crate::decimal::spec_decimal(tx_nonce as int)
            + " must be larger than nonce of the used access key "@
            + crate::decimal::spec_decimal(ak_nonce as int),
        InvalidTxError::Other(text) => "Invalid transaction: "@ + text@,
    }
}

/// The textual rendering of an execution failure, cause included.
pub open spec fn spec_tx_execution_text(e: TxExecutionError) -> Seq<char> {
    match e {
        TxExecutionError::InvalidTx(cause) => spec_invalid_tx_text(cause),
        TxExecutionError::Action(text) => "Action error: "@ + text@,
    }
}

/// The textual rendering of a server error: the kind, and for an
/// execution failure the cause it carries.
pub open spec fn spec_server_error_text(e: ServerError) -> Seq<char> {
    match e {
        ServerError::TxExecutionError(cause) => "ServerError: "@ + spec_tx_execution_text(cause),
        ServerError::Timeout => "ServerError: Timeout"@,
        ServerError::Closed => "ServerError: Closed"@,
        ServerError::InternalError => "ServerError: Internal Error"@,
    }
}

impl InvalidTxError {
    /// A textual rendering carrying the cause, in place of a display
    /// trait.
    pub fn describe(&self) -> (r: String)
        ensures
            r@ == spec_invalid_tx_text(*self),
    {
        match self {
            InvalidTxError::InvalidNonce { tx_nonce, ak_nonce } => {
                let mut s = String::from_str("Transaction nonce ");
                let tn = crate::decimal::u64_to_decimal(*tx_nonce);
                s.append(tn.as_str());
                s.append(" must be larger than nonce of the used access key ");
                let an = crate::decimal::u64_to_decimal(*ak_nonce);
                s.append(an.as_str());
                proof {
                    assert(s@ =~= spec_invalid_tx_text(*self));
                }
                s
            },
            InvalidTxError::Other(text) => {
                let mut s = String::from_str("Invalid transaction: ");
                s.append(text.as_str());
                proof {
                    assert(s@ =~= spec_invalid_tx_text(*self));
                }
                s
            },
        }
    }
}

impl TxExecutionError {
    /// A textual rendering carrying the cause.
    pub fn describe(&self) -> (r: String)
        ensures
            r@ == spec_tx_execution_text(*self),
    {
        match self {
            TxExecutionError::InvalidTx(cause) => cause.describe(),
            TxExecutionError::Action(text) => {
                let mut s = String::from_str("Action error: ");
                s.append(text.as_str());
                proof {
                    assert(s@ =~= spec_tx_execution_text(*self));
                }
                s
            },
        }
    }
}

impl ServerError {
    /// A textual rendering, in place of a display trait: the kind, and
    /// for an execution failure the cause it carries.
    pub fn describe(&self) -> (r: String)
        ensures
            r@ == spec_server_error_text(*self),
    {
        match self {
            ServerError::TxExecutionError(cause) => {
                let mut s = String::from_str("ServerError: ");
                let c = cause.describe();
                s.append(c.as_str());
                proof {
                    assert(s@ =~= spec_server_error_text(*self));
                }
                s
            },
            ServerError::Timeout => String::from_str("ServerError: Timeout"),
            ServerError::Closed => String::from_str("ServerError: Closed"),
            ServerError::InternalError => String::from_str("ServerError: Internal Error"),
        }
    }
}

impl InvalidTxError {
    /// An identical copy.
    pub fn duplicate(&self) -> (r: InvalidTxError)
        ensures
            r == *self,
    {
        match self {
            InvalidTxError::InvalidNonce { tx_nonce, ak_nonce } => InvalidTxError::InvalidNonce {
                tx_nonce: *tx_nonce,
                ak_nonce: *ak_nonce,
            },
            InvalidTxError::Other(text) => InvalidTxError::Other(text.clone()),
        }
    }
}

impl TxExecutionError {
    /// An identical copy.
    pub fn duplicate(&self) -> (r: TxExecutionError)
        ensures
            r == *self,
    {
        match self {
            TxExecutionError::InvalidTx(e) => TxExecutionError::InvalidTx(e.duplicate()),
            TxExecutionError::Action(text) => TxExecutionError::Action(text.clone()),
        }
    }
}

impl ServerError {
    /// An identical copy.
    pub fn duplicate(&self) -> (r: ServerError)
        ensures
            r == *self,
    {
        match self {
            ServerError::TxExecutionError(e) => ServerError::TxExecutionError(e.duplicate()),
            ServerError::Timeout => ServerError::Timeout,
            ServerError::Closed => ServerError::Closed,
            ServerError::InternalError => ServerError::InternalError,
        }
    }
}

impl TxStatusError {
    /// An identical copy.
    pub fn duplicate(&self) -> (r: TxStatusError)
        ensures
            r == *self,
    {
        match self {
            TxStatusError::MissingTransaction => TxStatusError::MissingTransaction,
            TxStatusError::InvalidTx(e) => TxStatusError::InvalidTx(e.duplicate()),
            TxStatusError::InternalError => TxStatusError::InternalError,
            TxStatusError::TimeoutError => TxStatusError::TimeoutError,
        }
    }
}

/// The textual form in which a status-lookup failure is reported through
/// the response envelope.
pub open spec fn spec_tx_status_error_text(e: TxStatusError) -> Seq<char> {
    match e {
        TxStatusError::MissingTransaction => "Transaction is missing"@,
        TxStatusError::InvalidTx(_) => "Transaction is invalid"@,
        TxStatusError::InternalError => "Internal error"@,
        TxStatusError::TimeoutError => "Timeout"@,
    }
}

pub fn tx_status_error_text(e: &TxStatusError) -> (r: String)
    ensures
        r@ == spec_tx_status_error_text(*e),
{
    match e {
        TxStatusError::MissingTransaction => String::from_str("Transaction is missing"),
        TxStatusError::InvalidTx(_) => String::from_str("Transaction is invalid"),
        TxStatusError::InternalError => String::from_str("Internal error"),
        TxStatusError::TimeoutError => String::from_str("Timeout"),
    }
}

} // verus!
