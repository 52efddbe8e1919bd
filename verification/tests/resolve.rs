use near_jsonrpc::config::RpcPollingConfig;
use near_jsonrpc::errors::{InvalidTxError, MailboxError, ServerError, TxStatusError};
use near_jsonrpc::messages::{ClientResponse, ExecutionOutcome, StatusReply};
use near_jsonrpc::resolve::{
    resolve_replay, PollSession, ResolveAction, ResolveEvent, Resolver, RunStatus,
};

fn cfg(timeout_ms: u64, interval_ms: u64) -> RpcPollingConfig {
    RpcPollingConfig { polling_interval_ms: interval_ms, polling_timeout_ms: timeout_ms }
}

fn outcome(text: &str) -> ExecutionOutcome {
    ExecutionOutcome { data: String::from(text) }
}

#[test]
fn a_status_that_never_becomes_final_times_out_within_one_interval() {
    let events: Vec<ResolveEvent> =
        (0..10).map(|_| ResolveEvent::Status(StatusReply::NotReady)).collect();
    let summary = resolve_replay(&cfg(200, 50), true, &events);
    assert_eq!(summary.status, RunStatus::TimedOut);
    assert_eq!(summary.elapsed_ms, 200);
    assert_eq!(summary.polls, 4);
    assert_eq!(summary.resubmits, 0);
}

#[test]
fn an_uneven_interval_still_stops_less_than_one_interval_past_the_deadline() {
    let events: Vec<ResolveEvent> =
        (0..10).map(|_| ResolveEvent::Status(StatusReply::NotReady)).collect();
    let summary = resolve_replay(&cfg(200, 60), false, &events);
    assert_eq!(summary.status, RunStatus::TimedOut);
    assert_eq!(summary.elapsed_ms, 240);
    assert!(summary.elapsed_ms >= 200 && summary.elapsed_ms < 260);
}

#[test]
fn a_final_outcome_ends_the_session_with_it() {
    let events = vec![
        ResolveEvent::Status(StatusReply::NotReady),
        ResolveEvent::Status(StatusReply::Executed(outcome("done"))),
    ];
    let summary = resolve_replay(&cfg(10_000, 500), true, &events);
    assert_eq!(summary.status, RunStatus::Finished(Ok(outcome("done"))));
    assert_eq!(summary.elapsed_ms, 500);
    assert_eq!(summary.polls, 2);
}

#[test]
fn unknown_transaction_with_the_full_record_resubmits_exactly_once_each_time() {
    let events = vec![
        ResolveEvent::Status(StatusReply::Failed(TxStatusError::MissingTransaction)),
        ResolveEvent::Resubmitted(Ok(ClientResponse::ValidTx)),
        ResolveEvent::Status(StatusReply::Failed(TxStatusError::MissingTransaction)),
        ResolveEvent::Resubmitted(Ok(ClientResponse::ValidTx)),
        ResolveEvent::Status(StatusReply::Executed(outcome("ok"))),
    ];
    let summary = resolve_replay(&cfg(10_000, 500), true, &events);
    assert_eq!(summary.status, RunStatus::Finished(Ok(outcome("ok"))));
    assert_eq!(summary.resubmits, 2);
    assert_eq!(summary.missing, 2);
}

#[test]
fn a_rejected_resubmission_ends_the_session_with_that_invalidity() {
    let rejection = InvalidTxError::Other(String::from("malformed"));
    let events = vec![
        ResolveEvent::Status(StatusReply::Failed(TxStatusError::MissingTransaction)),
        ResolveEvent::Resubmitted(Ok(ClientResponse::InvalidTx(rejection.clone()))),
    ];
    let summary = resolve_replay(&cfg(10_000, 500), true, &events);
    assert_eq!(
        summary.status,
        RunStatus::Finished(Err(TxStatusError::InvalidTx(rejection)))
    );
    assert_eq!(summary.resubmits, 1);
}

#[test]
fn a_hash_only_session_never_resubmits() {
    let events = vec![
        ResolveEvent::Status(StatusReply::Failed(TxStatusError::MissingTransaction)),
        ResolveEvent::Status(StatusReply::Failed(TxStatusError::MissingTransaction)),
        ResolveEvent::Status(StatusReply::NotReady),
        ResolveEvent::Status(StatusReply::Failed(TxStatusError::MissingTransaction)),
    ];
    let summary = resolve_replay(&cfg(2_000, 500), false, &events);
    assert_eq!(summary.status, RunStatus::TimedOut);
    assert_eq!(summary.resubmits, 0);
    assert_eq!(summary.missing, 3);
}

#[test]
fn any_other_lookup_failure_ends_the_session_at_once() {
    let events = vec![ResolveEvent::Status(StatusReply::Failed(TxStatusError::InternalError))];
    let summary = resolve_replay(&cfg(10_000, 500), true, &events);
    assert_eq!(summary.status, RunStatus::Finished(Err(TxStatusError::InternalError)));
}

#[test]
fn an_unreachable_worker_is_an_internal_error_not_retried() {
    let events = vec![
        ResolveEvent::Status(StatusReply::Unreachable(MailboxError::Closed)),
        ResolveEvent::Status(StatusReply::NotReady),
    ];
    let summary = resolve_replay(&cfg(10_000, 500), true, &events);
    assert_eq!(summary.status, RunStatus::Finished(Err(TxStatusError::InternalError)));
    assert_eq!(summary.polls, 1);
}

#[test]
fn a_script_that_runs_out_reports_as_exhausted() {
    let events = vec![ResolveEvent::Status(StatusReply::NotReady)];
    let summary = resolve_replay(&cfg(10_000, 500), true, &events);
    assert_eq!(summary.status, RunStatus::Exhausted);
    assert_eq!(summary.elapsed_ms, 500);
}

#[test]
fn the_step_functions_drive_one_session() {
    let mut r = Resolver::start(true);
    assert_eq!(r.on_status(StatusReply::NotReady), ResolveAction::Poll);
    assert_eq!(
        r.on_status(StatusReply::Failed(TxStatusError::MissingTransaction)),
        ResolveAction::Resubmit
    );
    assert_eq!(r.on_resubmit(Err(ServerError::Timeout)), ResolveAction::Poll);
    assert_eq!(r.on_status(StatusReply::Executed(outcome("x"))), ResolveAction::Stop);
    assert_eq!(r.done, Some(Ok(outcome("x"))));
}

#[test]
fn the_poll_session_accounts_sleeps_until_the_deadline() {
    let c = cfg(200, 50);
    let mut s = PollSession::start(&c);
    let mut sleeps = 0;
    while !s.expired() {
        s.advance();
        sleeps += 1;
    }
    assert_eq!(sleeps, 4);
    assert_eq!(s.elapsed_ms, 200);
}
