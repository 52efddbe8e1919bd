//! Request/response core of a blockchain node's JSON-RPC endpoint.
//!
//! The crate models the dispatcher that routes decoded RPC calls, the
//! transaction submitter with its idempotence protocol, the bounded
//! status-polling resolver, and the closed error taxonomy that every
//! backend failure is mapped into.  The asynchronous transport around
//! these decisions (HTTP, worker mailboxes, sleeping between polls) is
//! left to the embedding application; the decisions themselves are
//! verified here.

pub mod account;
pub mod bench;
pub mod config;
pub mod decimal;
pub mod dispatch;
pub mod encoding;
pub mod envelope;
pub mod errors;
pub mod messages;
pub mod params;
pub mod resolve;
pub mod submit;
pub mod tx;
pub mod view;
