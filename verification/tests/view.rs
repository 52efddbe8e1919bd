use near_jsonrpc::envelope::ResponsePayload;
use near_jsonrpc::errors::{ErrorData, MailboxError, ServerError, SERVER_ERROR_CODE, STATUS_ERROR_CODE};
use near_jsonrpc::view::{
    changes_after_block, changes_response, finish_receipt, finish_status, proof_after_outcome,
    proof_response,
};

#[test]
fn health_is_null_and_status_is_the_payload() {
    assert_eq!(
        finish_status(Ok(Ok(String::from("{\"sync\":false}"))), true),
        Ok(ResponsePayload::Null)
    );
    assert_eq!(
        finish_status(Ok(Ok(String::from("{\"sync\":false}"))), false),
        Ok(ResponsePayload::Raw(String::from("{\"sync\":false}")))
    );
}

#[test]
fn status_failures_carry_the_status_code() {
    match finish_status(Ok(Err(String::from("node is syncing"))), false) {
        Err(e) => {
            assert_eq!(e.code, STATUS_ERROR_CODE);
            assert_eq!(e.message, "node is syncing");
            assert_eq!(e.data, None);
        },
        other => panic!("expected a status error, got {:?}", other),
    }
    match finish_status(Err(MailboxError::Closed), true) {
        Err(e) => {
            assert_eq!(e.code, SERVER_ERROR_CODE);
            assert_eq!(e.data, None);
        },
        other => panic!("expected a server error, got {:?}", other),
    }
}

#[test]
fn a_receipt_that_exists_passes_through_and_an_absent_one_is_typed() {
    assert_eq!(
        finish_receipt(Ok(Ok(Some(String::from("{\"id\":1}")))), String::from("r1")),
        Ok(ResponsePayload::Raw(String::from("{\"id\":1}")))
    );
    match finish_receipt(Ok(Ok(None)), String::from("r1")) {
        Err(e) => {
            assert_eq!(e.code, SERVER_ERROR_CODE);
            assert_eq!(e.message, "Unknown receipt");
            assert_eq!(e.data, Some(ErrorData::Text(String::from("r1"))));
        },
        other => panic!("expected the not-found error, got {:?}", other),
    }
    match finish_receipt(Err(MailboxError::Timeout), String::from("r1")) {
        Err(e) => assert_eq!(e.data, Some(ErrorData::Server(ServerError::Timeout))),
        other => panic!("expected a server error, got {:?}", other),
    }
}

#[test]
fn state_changes_echo_the_resolved_block_hash() {
    let hash = changes_after_block(Ok(Ok(String::from("9wExDhyk")))).expect("block resolves");
    assert_eq!(hash, "9wExDhyk");
    assert_eq!(
        changes_response(hash, Ok(Ok(String::from("[]")))),
        Ok(ResponsePayload::Changes {
            block_hash_b58: String::from("9wExDhyk"),
            changes: String::from("[]"),
        })
    );
}

#[test]
fn a_block_that_does_not_resolve_passes_its_error_through() {
    match changes_after_block(Ok(Err(String::from("unknown block")))) {
        Err(e) => assert_eq!(e.data, Some(ErrorData::Text(String::from("unknown block")))),
        other => panic!("expected the block error, got {:?}", other),
    }
    match changes_after_block(Err(MailboxError::Closed)) {
        Err(e) => assert_eq!(e.data, Some(ErrorData::Server(ServerError::Closed))),
        other => panic!("expected a server error, got {:?}", other),
    }
}

#[test]
fn a_light_client_proof_joins_both_steps() {
    let outcome = proof_after_outcome(Ok(Ok(String::from("{\"o\":1}")))).expect("step one");
    assert_eq!(
        proof_response(outcome, Ok(Ok(String::from("{\"b\":2}")))),
        Ok(ResponsePayload::LightClientProof {
            outcome_proof: String::from("{\"o\":1}"),
            block_proof: String::from("{\"b\":2}"),
        })
    );
    match proof_after_outcome(Err(MailboxError::Timeout)) {
        Err(e) => assert_eq!(e.data, Some(ErrorData::Server(ServerError::Timeout))),
        other => panic!("expected a server error, got {:?}", other),
    }
    match proof_response(String::from("{}"), Ok(Err(String::from("no proof")))) {
        Err(e) => assert_eq!(e.data, Some(ErrorData::Text(String::from("no proof")))),
        other => panic!("expected a server error, got {:?}", other),
    }
}
