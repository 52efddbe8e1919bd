use near_jsonrpc::bench::{
    get_account_id, total_transactions, warmup_total_transactions, Config, GasMetric, VmKind,
};
use near_jsonrpc::decimal::u64_to_decimal;
use near_jsonrpc::config::{RpcConfig, RpcLimitsConfig, RpcPollingConfig};

#[test]
fn decimal_rendering_is_exact() {
    assert_eq!(u64_to_decimal(0), "0");
    assert_eq!(u64_to_decimal(7), "7");
    assert_eq!(u64_to_decimal(10), "10");
    assert_eq!(u64_to_decimal(90210), "90210");
    assert_eq!(u64_to_decimal(u64::MAX), "18446744073709551615");
}

#[test]
fn account_ids_follow_the_naming_scheme() {
    assert_eq!(get_account_id(0), "near_0_0");
    assert_eq!(get_account_id(31), "near_31_31");
}

fn config(block_sizes: Vec<usize>, iter: usize, warmup: usize) -> Config {
    Config {
        warmup_iters_per_block: warmup,
        iter_per_block: iter,
        active_accounts: 100,
        block_sizes,
        state_dump_path: String::from("/tmp/state"),
        metric: GasMetric::Time,
        vm_kind: VmKind::Wasmer,
        disable_measure_action_creation: false,
        disable_measure_transaction: false,
    }
}

#[test]
fn transaction_totals_multiply_the_block_sizes() {
    let c = config(vec![10, 20, 30], 4, 2);
    assert_eq!(total_transactions(&c), 240);
    assert_eq!(warmup_total_transactions(&c), 120);
    let empty = config(vec![], 4, 2);
    assert_eq!(total_transactions(&empty), 0);
}

#[test]
fn default_configuration_matches_the_documented_values() {
    let polling = RpcPollingConfig::default();
    assert_eq!(polling.polling_interval_ms, 500);
    assert_eq!(polling.polling_timeout_ms, 10_000);
    let limits = RpcLimitsConfig::default();
    assert_eq!(limits.json_payload_max_size, 10 * 1024 * 1024);
    let config = RpcConfig::default();
    assert_eq!(config.addr, "0.0.0.0:3030");
    assert_eq!(config.cors_allowed_origins, vec![String::from("*")]);
    let bound = RpcConfig::new("127.0.0.1:3030");
    assert_eq!(bound.addr, "127.0.0.1:3030");
    assert_eq!(bound.polling_config.polling_timeout_ms, 10_000);
}
