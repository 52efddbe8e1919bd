//! The status resolver and the bounded poller it runs under.
//!
//! A resolve session repeatedly asks the view worker for a transaction's
//! final outcome.  A reply of "unknown transaction", when the full record
//! is at hand, triggers exactly one resubmission to the ingestion worker
//! before the session polls on or fails; any other lookup failure ends
//! the session at once; an unreachable worker ends it with an internal
//! error.  The poller stops issuing probes as soon as the deadline has
//! elapsed and reports a uniform timeout.
//!
//! The decisions are the step functions below; the embedding application
//! supplies the awaiting and the sleeping.  `resolve_replay` is the same
//! loop run against a script of replies, and the laws at the end are
//! proved over its mathematical description `spec_run`.

use vstd::prelude::*;
use crate::config::{RpcPollingConfig, polling_config_wf};
use crate::errors::{ServerError, TxStatusError};
use crate::messages::{ClientResponse, ExecutionOutcome, StatusReply};

verus! {

/// One scripted backend reply during a resolve session.
#[derive(Debug, PartialEq, Eq)]
pub enum ResolveEvent {
    /// The view worker's reply to a status probe.
    Status(StatusReply),
    /// The ingestion worker's reply to the resubmission the session asked
    /// for.
    Resubmitted(Result<ClientResponse, ServerError>),
}

/// What the session asks its driver to do next.
#[derive(Debug, Clone, Copy, PartialEq, Eq)]
pub enum ResolveAction {
    /// Sleep one interval, then probe the status again.
    Poll,
    /// Resubmit the transaction to the ingestion worker and report back.
    Resubmit,
    /// The session is over; its result is in `done`.
    Stop,
}

/// The state of one resolve session.
#[derive(Debug, PartialEq, Eq)]
pub struct Resolver {
    /// Whether the full transaction record is at hand (a resubmission is
    /// only possible then).
    pub has_full_tx: bool,
    /// A resubmission was asked for and its result is still out.
    pub awaiting_resubmit: bool,
    /// The session's result, once it has one.
    pub done: Option<Result<ExecutionOutcome, TxStatusError>>,
}

impl Resolver {
    pub open spec fn spec_start(has_full_tx: bool) -> Resolver {
        Resolver { has_full_tx, awaiting_resubmit: false, done: None }
    }

    pub fn start(has_full_tx: bool) -> (r: Resolver)
        ensures
            r == Resolver::spec_start(has_full_tx),
    {
        Resolver { has_full_tx, awaiting_resubmit: false, done: None }
    }

    /// Feeds one status reply to a session that is polling.
    pub fn on_status(&mut self, reply: StatusReply) -> (a: ResolveAction)
        requires
            !old(self).awaiting_resubmit,
            old(self).done is None,
        ensures
            (*final(self), a) == spec_on_status(*old(self), reply),
    {
        match reply {
            StatusReply::Executed(o) => {
                self.done = Some(Ok(o));
                ResolveAction::Stop
            },
            StatusReply::NotReady => ResolveAction::Poll,
            StatusReply::Failed(e) => {
                if matches!(e, TxStatusError::MissingTransaction) {
                    if self.has_full_tx {
                        self.awaiting_resubmit = true;
                        ResolveAction::Resubmit
                    } else {
                        ResolveAction::Poll
                    }
                } else {
                    self.done = Some(Err(e));
                    ResolveAction::Stop
                }
            },
            StatusReply::Unreachable(_) => {
                self.done = Some(Err(TxStatusError::InternalError));
                ResolveAction::Stop
            },
        }
    }

    /// Feeds the resubmission's result to a session that asked for one.
    pub fn on_resubmit(&mut self, reply: Result<ClientResponse, ServerError>) -> (a: ResolveAction)
        requires
            old(self).awaiting_resubmit,
            old(self).done is None,
        ensures
            (*final(self), a) == spec_on_resubmit(*old(self), reply),
    {
        self.awaiting_resubmit = false;
        match reply {
            Ok(ClientResponse::InvalidTx(e)) => {
                self.done = Some(Err(TxStatusError::InvalidTx(e)));
                ResolveAction::Stop
            },
            _ => ResolveAction::Poll,
        }
    }
}

/// The resolver's decision on one status reply: a final outcome stops the
/// session; "not ready" polls on; "unknown transaction" asks for one
/// resubmission where the full record is at hand and polls on otherwise;
/// any other failure stops the session with it; an unreachable worker
/// stops it with an internal error.
pub open spec fn spec_on_status(s: Resolver, reply: StatusReply) -> (Resolver, ResolveAction) {
    match reply {
        StatusReply::Executed(o) => (
            Resolver { done: Some(Ok(o)), ..s },
            ResolveAction::Stop,
        ),
        StatusReply::NotReady => (s, ResolveAction::Poll),
        StatusReply::Failed(e) => {
            if e == TxStatusError::MissingTransaction {
                if s.has_full_tx {
                    (Resolver { awaiting_resubmit: true, ..s }, ResolveAction::Resubmit)
                } else {
                    (s, ResolveAction::Poll)
                }
            } else {
                (Resolver { done: Some(Err(e)), ..s }, ResolveAction::Stop)
            }
        },
        StatusReply::Unreachable(_) => (
            Resolver { done: Some(Err(TxStatusError::InternalError)), ..s },
            ResolveAction::Stop,
        ),
    }
}

/// The resolver's decision on the resubmission result: a rejection stops
/// the session with that invalidity; anything else polls on.
pub open spec fn spec_on_resubmit(s: Resolver, reply: Result<ClientResponse, ServerError>) -> (
    Resolver,
    ResolveAction,
) {
    match reply {
        Ok(ClientResponse::InvalidTx(e)) => (
            Resolver {
                awaiting_resubmit: false,
                done: Some(Err(TxStatusError::InvalidTx(e))),
                ..s
            },
            ResolveAction::Stop,
        ),
        _ => (Resolver { awaiting_resubmit: false, ..s }, ResolveAction::Poll),
    }
}

/// One bounded polling session: elapsed time against a fixed deadline.
#[derive(Debug, Clone, Copy, PartialEq, Eq)]
pub struct PollSession {
    pub config: RpcPollingConfig,
    pub elapsed_ms: u64,
}

impl PollSession {
    pub open spec fn wf(&self) -> bool {
        polling_config_wf(self.config)
    }

    pub fn start(config: &RpcPollingConfig) -> (r: PollSession)
        requires
            polling_config_wf(*config),
        ensures
            r.config == *config,
            r.elapsed_ms == 0,
            r.wf(),
    {
        PollSession { config: *config, elapsed_ms: 0 }
    }

    /// Whether the deadline has elapsed: no further probe may be issued.
    pub fn expired(&self) -> (r: bool)
        ensures
            r == (self.elapsed_ms >= self.config.polling_timeout_ms),
    {
        self.elapsed_ms >= self.config.polling_timeout_ms
    }

    /// Accounts for one sleep between poll attempts.
    pub fn advance(&mut self)
        requires
            old(self).wf(),
            old(self).elapsed_ms < old(self).config.polling_timeout_ms,
        ensures
            final(self).config == old(self).config,
            final(self).elapsed_ms == old(self).elapsed_ms + old(self).config.polling_interval_ms,
            final(self).wf(),
    {
        self.elapsed_ms = self.elapsed_ms + self.config.polling_interval_ms;
    }
}

/// How a scripted session ended.
#[derive(Debug, PartialEq, Eq)]
pub enum RunStatus {
    /// The resolver reached a result.
    Finished(Result<ExecutionOutcome, TxStatusError>),
    /// The deadline elapsed first: the uniform timeout.
    TimedOut,
    /// The script ran out (or handed a reply the session did not ask
    /// for) before either.
    Exhausted,
}

/// The mathematical summary of a session: how it ended, the elapsed time
/// at that point, and how many probes, resubmissions and
/// unknown-transaction replies it saw.
pub struct RunResult {
    pub status: RunStatus,
    pub elapsed: int,
    pub polls: int,
    pub resubmits: int,
    pub missing: int,
}

/// How a session with the given state and elapsed time plays out against
/// a script of replies.  Probes are issued only while the deadline has
/// not elapsed; each `Poll` action costs one interval of sleep; the
/// resubmission round-trip itself costs none.
pub open spec fn spec_run(
    cfg: RpcPollingConfig,
    s: Resolver,
    elapsed: int,
    events: Seq<ResolveEvent>,
) -> RunResult
    decreases events.len(),
{
    if s.awaiting_resubmit {
        if events.len() == 0 {
            RunResult { status: RunStatus::Exhausted, elapsed, polls: 0, resubmits: 0, missing: 0 }
        } else {
            match events[0] {
                ResolveEvent::Resubmitted(reply) => {
                    let next = spec_on_resubmit(s, reply);
                    if next.1 == ResolveAction::Stop {
                        RunResult {
                            status: spec_finish(next.0),
                            elapsed,
                            polls: 0,
                            resubmits: 0,
                            missing: 0,
                        }
                    } else {
                        let rest = spec_run(
                            cfg,
                            next.0,
                            elapsed + cfg.polling_interval_ms,
                            events.drop_first(),
                        );
                        RunResult {
                            status: rest.status,
                            elapsed: rest.elapsed,
                            polls: rest.polls,
                            resubmits: rest.resubmits,
                            missing: rest.missing,
                        }
                    }
                },
                _ => RunResult {
                    status: RunStatus::Exhausted,
                    elapsed,
                    polls: 0,
                    resubmits: 0,
                    missing: 0,
                },
            }
        }
    } else if elapsed >= cfg.polling_timeout_ms {
        RunResult { status: RunStatus::TimedOut, elapsed, polls: 0, resubmits: 0, missing: 0 }
    } else if events.len() == 0 {
        RunResult { status: RunStatus::Exhausted, elapsed, polls: 0, resubmits: 0, missing: 0 }
    } else {
        match events[0] {
            ResolveEvent::Status(reply) => {
                let next = spec_on_status(s, reply);
                let m: int = if reply == StatusReply::Failed(TxStatusError::MissingTransaction) {
                    1
                } else {
                    0
                };
                match next.1 {
                    ResolveAction::Stop => RunResult {
                        status: spec_finish(next.0),
                        elapsed,
                        polls: 1,
                        resubmits: 0,
                        missing: m,
                    },
                    ResolveAction::Resubmit => {
                        let rest = spec_run(cfg, next.0, elapsed, events.drop_first());
                        RunResult {
                            status: rest.status,
                            elapsed: rest.elapsed,
                            polls: rest.polls + 1,
                            resubmits: rest.resubmits + 1,
                            missing: rest.missing + m,
                        }
                    },
                    ResolveAction::Poll => {
                        let rest = spec_run(
                            cfg,
                            next.0,
                            elapsed + cfg.polling_interval_ms,
                            events.drop_first(),
                        );
                        RunResult {
                            status: rest.status,
                            elapsed: rest.elapsed,
                            polls: rest.polls + 1,
                            resubmits: rest.resubmits,
                            missing: rest.missing + m,
                        }
                    },
                }
            },
            _ => RunResult {
                status: RunStatus::Exhausted,
                elapsed,
                polls: 0,
                resubmits: 0,
                missing: 0,
            },
        }
    }
}

/// A stopped session's status, from its state.
pub open spec fn spec_finish(s: Resolver) -> RunStatus {
    match s.done {
        Some(r) => RunStatus::Finished(r),
        None => RunStatus::Exhausted,
    }
}

/// The runtime summary of a scripted session.
#[derive(Debug, PartialEq, Eq)]
pub struct ReplaySummary {
    pub status: RunStatus,
    pub elapsed_ms: u64,
    pub polls: u64,
    pub resubmits: u64,
    pub missing: u64,
}

/// Runs one resolve session against a script of replies: the same loop
/// the application drives against live workers, with the sleeps replaced
/// by deadline accounting.
pub fn resolve_replay(cfg: &RpcPollingConfig, has_full_tx: bool, events: &Vec<ResolveEvent>) -> (r:
    ReplaySummary)
    requires
        polling_config_wf(*cfg),
    ensures
        ({
            let g = spec_run(*cfg, Resolver::spec_start(has_full_tx), 0, events@);
            &&& r.status == g.status
            &&& r.elapsed_ms as int == g.elapsed
            &&& r.polls as int == g.polls
            &&& r.resubmits as int == g.resubmits
            &&& r.missing as int == g.missing
        }),
{
    let ghost g = spec_run(*cfg, Resolver::spec_start(has_full_tx), 0, events@);
    proof {
        assert(events@.skip(0) =~= events@);
    }
    let mut state = Resolver::start(has_full_tx);
    let mut session = PollSession::start(cfg);
    let mut i: usize = 0;
    let mut polls: u64 = 0;
    let mut resubmits: u64 = 0;
    let mut missing: u64 = 0;
    loop
        invariant
            g == spec_run(*cfg, Resolver::spec_start(has_full_tx), 0, events@),
            polling_config_wf(*cfg),
            session.config == *cfg,
            session.wf(),
            i <= events@.len(),
            state.done is None,
            state.awaiting_resubmit ==> session.elapsed_ms < cfg.polling_timeout_ms,
            polls <= i,
            resubmits <= i,
            missing <= i,
            ({
                let rest = spec_run(*cfg, state, session.elapsed_ms as int, events@.skip(i as int));
                &&& g.status == rest.status
                &&& g.elapsed == rest.elapsed
                &&& g.polls == polls + rest.polls
                &&& g.resubmits == resubmits + rest.resubmits
                &&& g.missing == missing + rest.missing
            }),
        decreases events@.len() - i,
    {
        proof {
            if i < events@.len() {
                assert(events@.skip(i as int)[0] == events@[i as int]);
                assert(events@.skip(i as int).drop_first() =~= events@.skip(i as int + 1));
            }
        }
        if state.awaiting_resubmit {
            if i == events.len() {
                return ReplaySummary {
                    status: RunStatus::Exhausted,
                    elapsed_ms: session.elapsed_ms,
                    polls,
                    resubmits,
                    missing,
                };
            }
            match &events[i] {
                ResolveEvent::Resubmitted(reply) => {
                    let owned: Result<ClientResponse, ServerError> = match reply {
                        Ok(c) => Ok(c.duplicate()),
                        Err(e) => Err(e.duplicate()),
                    };
                    let a = state.on_resubmit(owned);
                    i = i + 1;
                    if matches!(a, ResolveAction::Stop) {
                        let done = state.done;
                        match done {
                            Some(result) => {
                                return ReplaySummary {
                                    status: RunStatus::Finished(result),
                                    elapsed_ms: session.elapsed_ms,
                                    polls,
                                    resubmits,
                                    missing,
                                };
                            },
                            None => {
                                return ReplaySummary {
                                    status: RunStatus::Exhausted,
                                    elapsed_ms: session.elapsed_ms,
                                    polls,
                                    resubmits,
                                    missing,
                                };
                            },
                        }
                    } else {
                        session.advance();
                    }
                },
                _ => {
                    return ReplaySummary {
                        status: RunStatus::Exhausted,
                        elapsed_ms: session.elapsed_ms,
                        polls,
                        resubmits,
                        missing,
                    };
                },
            }
        } else if session.expired() {
            return ReplaySummary {
                status: RunStatus::TimedOut,
                elapsed_ms: session.elapsed_ms,
                polls,
                resubmits,
                missing,
            };
        } else if i == events.len() {
            return ReplaySummary {
                status: RunStatus::Exhausted,
                elapsed_ms: session.elapsed_ms,
                polls,
                resubmits,
                missing,
            };
        } else {
            match &events[i] {
                ResolveEvent::Status(reply) => {
                    let owned = reply.duplicate();
                    let is_missing = matches!(
                        owned,
                        StatusReply::Failed(TxStatusError::MissingTransaction)
                    );
                    let a = state.on_status(owned);
                    i = i + 1;
                    polls = polls + 1;
                    if is_missing {
                        missing = missing + 1;
                    }
                    match a {
                        ResolveAction::Stop => {
                            let done = state.done;
                            match done {
                                Some(result) => {
                                    return ReplaySummary {
                                        status: RunStatus::Finished(result),
                                        elapsed_ms: session.elapsed_ms,
                                        polls,
                                        resubmits,
                                        missing,
                                    };
                                },
                                None => {
                                    return ReplaySummary {
                                        status: RunStatus::Exhausted,
                                        elapsed_ms: session.elapsed_ms,
                                        polls,
                                        resubmits,
                                        missing,
                                    };
                                },
                            }
                        },
                        ResolveAction::Resubmit => {
                            resubmits = resubmits + 1;
                        },
                        ResolveAction::Poll => {
                            session.advance();
                        },
                    }
                },
                _ => {
                    return ReplaySummary {
                        status: RunStatus::Exhausted,
                        elapsed_ms: session.elapsed_ms,
                        polls,
                        resubmits,
                        missing,
                    };
                },
            }
        }
    }
}

/// Law, general form: while every reply is "not ready", the session times
/// out — it never finishes early and never resubmits — and the elapsed
/// time at the timeout lies in `[timeout, timeout + interval)`.
proof fn lemma_poll_bound_general(
    cfg: RpcPollingConfig,
    s: Resolver,
    elapsed: int,
    events: Seq<ResolveEvent>,
)
    requires
        polling_config_wf(cfg),
        !s.awaiting_resubmit,
        s.done is None,
        forall|i: int|
            0 <= i < events.len() ==> events[i] == ResolveEvent::Status(StatusReply::NotReady),
        0 <= elapsed < cfg.polling_timeout_ms + cfg.polling_interval_ms,
        elapsed + cfg.polling_interval_ms * events.len() >= cfg.polling_timeout_ms,
    ensures
        ({
            let r = spec_run(cfg, s, elapsed, events);
            &&& r.status == RunStatus::TimedOut
            &&& cfg.polling_timeout_ms <= r.elapsed < cfg.polling_timeout_ms
                + cfg.polling_interval_ms
            &&& r.resubmits == 0
        }),
    decreases events.len(),
{
    if elapsed >= cfg.polling_timeout_ms {
    } else {
        assert(events.len() >= 1) by (nonlinear_arith)
            requires
                elapsed + cfg.polling_interval_ms * events.len() >= cfg.polling_timeout_ms,
                elapsed < cfg.polling_timeout_ms,
                events.len() >= 0,
        ;
        assert(events[0] == ResolveEvent::Status(StatusReply::NotReady));
        assert(spec_on_status(s, StatusReply::NotReady) == (s, ResolveAction::Poll));
        assert((elapsed + cfg.polling_interval_ms) + cfg.polling_interval_ms * (events.len() - 1)
            >= cfg.polling_timeout_ms) by (nonlinear_arith)
            requires
                elapsed + cfg.polling_interval_ms * events.len() >= cfg.polling_timeout_ms,
                events.len() >= 1,
        ;
        lemma_poll_bound_general(
            cfg,
            s,
            elapsed + cfg.polling_interval_ms,
            events.drop_first(),
        );
    }
}

/// Law: the poll bound is respected.  With a well-formed polling
/// configuration and a status that never becomes final (every reply is
/// "not ready"), a resolve session returns the uniform timeout, after a
/// total wait of at least the configured timeout and of less than one
/// interval beyond it, and without ever resubmitting.
pub proof fn lemma_poll_bound(
    cfg: RpcPollingConfig,
    has_full_tx: bool,
    events: Seq<ResolveEvent>,
)
    requires
        polling_config_wf(cfg),
        forall|i: int|
            0 <= i < events.len() ==> events[i] == ResolveEvent::Status(StatusReply::NotReady),
        cfg.polling_interval_ms * events.len() >= cfg.polling_timeout_ms,
    ensures
        ({
            let r = spec_run(cfg, Resolver::spec_start(has_full_tx), 0, events);
            &&& r.status == RunStatus::TimedOut
            &&& cfg.polling_timeout_ms <= r.elapsed < cfg.polling_timeout_ms
                + cfg.polling_interval_ms
            &&& r.resubmits == 0
        }),
{
    lemma_poll_bound_general(cfg, Resolver::spec_start(has_full_tx), 0, events);
}

/// Law: resubmission accounting.  A session that holds the full
/// transaction record asks for exactly one resubmission per
/// "unknown transaction" reply it receives — never more, never fewer —
/// and a session that holds only a hash reference never resubmits.
pub proof fn lemma_resubmission_accounting(
    cfg: RpcPollingConfig,
    s: Resolver,
    elapsed: int,
    events: Seq<ResolveEvent>,
)
    requires
        s.done is None,
    ensures
        ({
            let r = spec_run(cfg, s, elapsed, events);
            &&& s.has_full_tx ==> r.resubmits == r.missing
            &&& !s.has_full_tx ==> r.resubmits == 0
        }),
    decreases events.len(),
{
    if s.awaiting_resubmit {
        if events.len() == 0 {
        } else {
            match events[0] {
                ResolveEvent::Resubmitted(reply) => {
                    let next = spec_on_resubmit(s, reply);
                    if next.1 == ResolveAction::Stop {
                    } else {
                        lemma_resubmission_accounting(
                            cfg,
                            next.0,
                            elapsed + cfg.polling_interval_ms,
                            events.drop_first(),
                        );
                    }
                },
                _ => {},
            }
        }
    } else if elapsed >= cfg.polling_timeout_ms {
    } else if events.len() == 0 {
    } else {
        match events[0] {
            ResolveEvent::Status(reply) => {
                let next = spec_on_status(s, reply);
                match next.1 {
                    ResolveAction::Stop => {},
                    ResolveAction::Resubmit => {
                        lemma_resubmission_accounting(cfg, next.0, elapsed, events.drop_first());
                    },
                    ResolveAction::Poll => {
                        lemma_resubmission_accounting(
                            cfg,
                            next.0,
                            elapsed + cfg.polling_interval_ms,
                            events.drop_first(),
                        );
                    },
                }
            },
            _ => {},
        }
    }
}

} // verus!
