use near_jsonrpc::dispatch::{
    code_index, dispatch, method_index, process_message, route_method, Dispatched, Method,
    RpcMetrics, ERROR_CODE_COUNT,
};
use near_jsonrpc::envelope::{respond, ResponsePayload, RpcId, RpcMessage, RpcRequest};
use near_jsonrpc::errors::{
    ErrorData, INVALID_PARAMS_CODE, INVALID_REQUEST_CODE, METHOD_NOT_FOUND_CODE,
    SERVER_ERROR_CODE,
};
use near_jsonrpc::tx::{encode_tx, SignedTransaction, TransactionInfo};

use base64::Engine;
use sha2::Digest;

fn sample_tx() -> SignedTransaction {
    SignedTransaction { signer_id: String::from("bob.near"), nonce: 7, body: vec![1, 2, 3] }
}

fn tx_params(tx: &SignedTransaction) -> String {
    let b64 = base64::engine::general_purpose::STANDARD.encode(encode_tx(tx));
    format!("[\"{}\"]", b64)
}

#[test]
fn every_method_name_routes() {
    let cases = [
        ("block", Method::Block),
        ("broadcast_tx_async", Method::BroadcastTxAsync),
        ("broadcast_tx_commit", Method::BroadcastTxCommit),
        ("chunk", Method::Chunk),
        ("EXPERIMENTAL_broadcast_tx_sync", Method::BroadcastTxSync),
        ("EXPERIMENTAL_changes", Method::Changes),
        ("EXPERIMENTAL_changes_in_block", Method::ChangesInBlock),
        ("EXPERIMENTAL_check_tx", Method::CheckTx),
        ("EXPERIMENTAL_genesis_config", Method::GenesisConfig),
        ("EXPERIMENTAL_light_client_proof", Method::LightClientProof),
        ("EXPERIMENTAL_protocol_config", Method::ProtocolConfig),
        ("EXPERIMENTAL_receipt", Method::Receipt),
        ("EXPERIMENTAL_tx_status", Method::TxStatusDetailed),
        ("EXPERIMENTAL_validators_ordered", Method::ValidatorsOrdered),
        ("gas_price", Method::GasPrice),
        ("health", Method::Health),
        ("light_client_proof", Method::LightClientProof),
        ("next_light_client_block", Method::NextLightClientBlock),
        ("network_info", Method::NetworkInfo),
        ("query", Method::Query),
        ("status", Method::Status),
        ("tx", Method::TxStatus),
        ("validators", Method::Validators),
    ];
    for (name, method) in cases {
        assert_eq!(route_method(name), Some(method), "route of {}", name);
    }
    assert_eq!(route_method("Block"), None);
    assert_eq!(route_method(""), None);
}

#[test]
fn unknown_method_is_answered_with_method_not_found() {
    let req = RpcRequest {
        id: RpcId::Number(1),
        method: String::from("not_a_method"),
        params: None,
    };
    let routed = process_message(RpcMessage::Request(req));
    assert_eq!(routed.id, RpcId::Number(1));
    match routed.step {
        Dispatched::Respond(Err(e)) => {
            assert_eq!(e.code, METHOD_NOT_FOUND_CODE);
            assert_eq!(e.data, Some(ErrorData::Text(String::from("not_a_method"))));
            let envelope = respond(routed.id, Err(e));
            assert_eq!(envelope.id, RpcId::Number(1));
        },
        other => panic!("expected a local error response, got {:?}", other),
    }
}

#[test]
fn unrecognized_envelope_is_an_invalid_request() {
    let routed = process_message(RpcMessage::Unrecognized);
    assert_eq!(routed.id, RpcId::Null);
    match routed.step {
        Dispatched::Respond(Err(e)) => assert_eq!(e.code, INVALID_REQUEST_CODE),
        other => panic!("expected a local error response, got {:?}", other),
    }
}

#[test]
fn non_base64_payload_never_reaches_a_worker() {
    for method in ["broadcast_tx_async", "broadcast_tx_commit", "EXPERIMENTAL_broadcast_tx_sync",
        "EXPERIMENTAL_check_tx"] {
        let step = dispatch(String::from(method), Some(String::from("[\"@@not-base64@@\"]")));
        match step {
            Dispatched::Respond(Err(e)) => {
                assert_eq!(e.code, INVALID_PARAMS_CODE, "{}", method);
                assert_eq!(
                    e.data,
                    Some(ErrorData::Text(String::from("Failed to decode base64 payload")))
                );
            },
            other => panic!("{} must answer locally, got {:?}", method, other),
        }
    }
}

#[test]
fn undecodable_payload_never_reaches_a_worker() {
    let garbage = base64::engine::general_purpose::STANDARD.encode([1u8, 2, 3]);
    for method in ["broadcast_tx_async", "broadcast_tx_commit", "EXPERIMENTAL_broadcast_tx_sync",
        "EXPERIMENTAL_check_tx"] {
        let step = dispatch(String::from(method), Some(format!("[\"{}\"]", garbage)));
        match step {
            Dispatched::Respond(Err(e)) => assert_eq!(e.code, INVALID_PARAMS_CODE, "{}", method),
            other => panic!("{} must answer locally, got {:?}", method, other),
        }
    }
}

#[test]
fn missing_params_are_an_invalid_params_error() {
    let step = dispatch(String::from("broadcast_tx_async"), None);
    match step {
        Dispatched::Respond(Err(e)) => {
            assert_eq!(e.code, INVALID_PARAMS_CODE);
            assert_eq!(
                e.data,
                Some(ErrorData::Text(String::from("Require at least one parameter")))
            );
        },
        other => panic!("expected a local error response, got {:?}", other),
    }
}

#[test]
fn fire_and_forget_answers_with_the_hash_before_any_backend_event() {
    let tx = sample_tx();
    let expected =
        bs58::encode(sha2::Sha256::digest(encode_tx(&tx))).into_string();
    let step = dispatch(String::from("broadcast_tx_async"), Some(tx_params(&tx)));
    match step {
        Dispatched::FireAndForget { tx: parsed, response } => {
            assert_eq!(parsed.signer_id, tx.signer_id);
            assert_eq!(parsed.nonce, tx.nonce);
            assert_eq!(parsed.body, tx.body);
            assert_eq!(response, ResponsePayload::Text(expected));
        },
        other => panic!("expected a fire-and-forget submission, got {:?}", other),
    }
}

#[test]
fn sync_and_check_submissions_carry_the_hash_and_mode() {
    let tx = sample_tx();
    let expected =
        bs58::encode(sha2::Sha256::digest(encode_tx(&tx))).into_string();
    match dispatch(String::from("EXPERIMENTAL_broadcast_tx_sync"), Some(tx_params(&tx))) {
        Dispatched::StartSubmit { tx_hash_b58, check_only, .. } => {
            assert_eq!(tx_hash_b58, expected);
            assert!(!check_only);
        },
        other => panic!("expected a submission flow, got {:?}", other),
    }
    match dispatch(String::from("EXPERIMENTAL_check_tx"), Some(tx_params(&tx))) {
        Dispatched::StartSubmit { check_only, .. } => assert!(check_only),
        other => panic!("expected a submission flow, got {:?}", other),
    }
    match dispatch(String::from("broadcast_tx_commit"), Some(tx_params(&tx))) {
        Dispatched::StartCommit { tx_hash_b58, .. } => assert_eq!(tx_hash_b58, expected),
        other => panic!("expected the commit flow, got {:?}", other),
    }
}

#[test]
fn tx_status_accepts_hash_and_account() {
    let raw: Vec<u8> = (0u8..32).collect();
    let hash_text = bs58::encode(&raw).into_string();
    let params = format!("[\"{}\", \"carol.near\"]", hash_text);
    match dispatch(String::from("tx"), Some(params)) {
        Dispatched::StartTxStatus { info, fetch_receipt } => {
            assert!(!fetch_receipt);
            match info {
                TransactionInfo::TransactionId { hash, account_id } => {
                    assert_eq!(hash.bytes, raw);
                    assert_eq!(account_id, "carol.near");
                },
                other => panic!("expected a keyed lookup, got {:?}", other),
            }
        },
        other => panic!("expected a status flow, got {:?}", other),
    }
}

#[test]
fn tx_status_rejects_an_invalid_account() {
    let raw: Vec<u8> = (0u8..32).collect();
    let params = format!("[\"{}\", \"Not Valid\"]", bs58::encode(&raw).into_string());
    match dispatch(String::from("tx"), Some(params)) {
        Dispatched::Respond(Err(e)) => {
            assert_eq!(e.code, INVALID_PARAMS_CODE);
            assert_eq!(e.data, Some(ErrorData::Text(String::from("Invalid account id"))));
        },
        other => panic!("expected a local error response, got {:?}", other),
    }
}

#[test]
fn tx_status_with_full_transaction_and_receipt_detail() {
    let tx = sample_tx();
    match dispatch(String::from("EXPERIMENTAL_tx_status"), Some(tx_params(&tx))) {
        Dispatched::StartTxStatus { info, fetch_receipt } => {
            assert!(fetch_receipt);
            assert!(matches!(info, TransactionInfo::Transaction(_)));
        },
        other => panic!("expected a status flow, got {:?}", other),
    }
}

#[test]
fn read_only_methods_pass_through() {
    let step = dispatch(String::from("block"), Some(String::from("{\"finality\":\"final\"}")));
    assert_eq!(
        step,
        Dispatched::StartView {
            kind: Method::Block,
            params: Some(String::from("{\"finality\":\"final\"}")),
        }
    );
    let step = dispatch(String::from("network_info"), None);
    assert_eq!(step, Dispatched::StartView { kind: Method::NetworkInfo, params: None });
}

#[test]
fn metrics_count_per_method_and_per_code_and_timeouts() {
    let mut m = RpcMetrics::new();
    m.record_request(Method::Block);
    m.record_request(Method::Block);
    m.record_request(Method::TxStatus);
    m.record_error(Method::Block, METHOD_NOT_FOUND_CODE);
    m.record_error(Method::Block, SERVER_ERROR_CODE);
    m.record_error(Method::Block, SERVER_ERROR_CODE);
    m.record_timeout();
    assert_eq!(m.requests[0], 2);
    assert_eq!(m.requests[20], 1);
    assert_eq!(m.requests[1], 0);
    let block_row = method_index(Method::Block) * ERROR_CODE_COUNT;
    assert_eq!(m.errors[block_row + code_index(METHOD_NOT_FOUND_CODE)], 1);
    assert_eq!(m.errors[block_row + code_index(SERVER_ERROR_CODE)], 2);
    assert_eq!(m.errors[block_row + code_index(INVALID_PARAMS_CODE)], 0);
    assert_eq!(m.timeouts, 1);
}
