//! Process-wide configuration consumed by the request layer.  All values
//! are read-only after startup and shared by every concurrent session.
//!
//! Durations are carried as whole milliseconds so that the polling
//! arithmetic can be reasoned about exactly.

use vstd::prelude::*;

verus! {

/// Interval and deadline of the bounded poller, in milliseconds.
#[derive(Debug, Clone, Copy, PartialEq, Eq)]
pub struct RpcPollingConfig {
    pub polling_interval_ms: u64,
    pub polling_timeout_ms: u64,
}

/// A polling configuration the bounded poller can run under: the interval
/// is positive and one more sleep past the deadline cannot overflow.
pub open spec fn polling_config_wf(c: RpcPollingConfig) -> bool {
    &&& 1 <= c.polling_interval_ms
    &&& c.polling_timeout_ms + c.polling_interval_ms <= u64::MAX
}

impl Default for RpcPollingConfig {
    /// Poll every half second, give up after ten seconds.
    fn default() -> (r: Self)
        ensures
            r.polling_interval_ms == 500,
            r.polling_timeout_ms == 10_000,
            polling_config_wf(r),
    {
        RpcPollingConfig { polling_interval_ms: 500, polling_timeout_ms: 10_000 }
    }
}

/// Limits applied to inbound requests.
#[derive(Debug, Clone, Copy, PartialEq, Eq)]
pub struct RpcLimitsConfig {
    /// Maximum byte size of the json payload.
    pub json_payload_max_size: usize,
}

impl Default for RpcLimitsConfig {
    fn default() -> (r: Self)
        ensures
            r.json_payload_max_size == 10 * 1024 * 1024,
    {
        RpcLimitsConfig { json_payload_max_size: 10 * 1024 * 1024 }
    }
}

/// Configuration of the whole RPC endpoint.
#[derive(Debug, Clone)]
pub struct RpcConfig {
    pub addr: String,
    pub cors_allowed_origins: Vec<String>,
    pub polling_config: RpcPollingConfig,
    pub limits_config: RpcLimitsConfig,
}

impl Default for RpcConfig {
    fn default() -> (r: Self)
        ensures
            r.addr@ == "0.0.0.0:3030"@,
            r.cors_allowed_origins@.len() == 1,
            r.cors_allowed_origins@[0]@ == "*"@,
            r.polling_config == (RpcPollingConfig { polling_interval_ms: 500, polling_timeout_ms: 10_000 }),
            r.limits_config == (RpcLimitsConfig { json_payload_max_size: 10485760 }),
    {
        let mut origins: Vec<String> = Vec::new();
        origins.push(String::from_str("*"));
        RpcConfig {
            addr: String::from_str("0.0.0.0:3030"),
            cors_allowed_origins: origins,
            polling_config: Default::default(),
            limits_config: Default::default(),
        }
    }
}

impl RpcConfig {
    /// A configuration that binds to the given address and keeps every
    /// other setting at its default.
    pub fn new(addr: &str) -> (r: Self)
        ensures
            r.addr@ == addr@,
            r.cors_allowed_origins@.len() == 1,
            r.cors_allowed_origins@[0]@ == "*"@,
            r.polling_config == (RpcPollingConfig { polling_interval_ms: 500, polling_timeout_ms: 10_000 }),
            r.limits_config == (RpcLimitsConfig { json_payload_max_size: 10485760 }),
    {
        let d: RpcConfig = Default::default();
        RpcConfig { addr: addr.to_owned(), ..d }
    }
}

} // verus!
