//! Sending a request to a prefill and decode pair.
//!
//! Both workers are sent their request at once. The decode worker cannot work
//! without what the prefill worker hands over, so a failed prefill ends the
//! attempt, and the load and the rooms of the prefill worker are given back as
//! soon as it has answered.
use vstd::prelude::*;
use crate::status::{
    is_client_error, is_not_worker_fault, is_server_error, is_success, received_status,
};

verus! {

/// How a request to a worker ended.
#[derive(Clone, Copy, Debug, PartialEq, Eq, Structural)]
pub enum SendOutcome {
    /// The worker answered with this status.
    Answered(u16),
    /// The worker could not be reached.
    Failed,
}

/// What the circuit breakers of a pair are told: whether the worker did well,
/// or nothing.
#[derive(Clone, Copy, Debug, PartialEq, Eq, Structural)]
pub struct BreakerOutcomes {
    pub prefill: Option<bool>,
    pub decode: Option<bool>,
}

/// What comes next for a request that was sent to a pair.
#[derive(Clone, Copy, Debug, PartialEq, Eq, Structural)]
pub enum Next {
    /// The prefill worker is to be awaited.
    AwaitPrefill,
    /// The decode worker is to be awaited.
    AwaitDecode,
    /// The decode request is to be dropped, and the failure of the prefill worker answered.
    ReplyPrefillFailure,
    /// That the decode worker could not be reached is to be answered.
    ReplyDecodeUnreachable,
    /// The refusal by the decode worker, with this status, is to be answered.
    ReplyDecodeRefused(u16),
    /// The response of the decode worker, with this status, is to be served.
    Serve(u16),
}

/// What an answer of one of the two workers leads to.
#[derive(Clone, Copy, Debug, PartialEq, Eq, Structural)]
pub struct DispatchStep {
    /// Whether the load and the rooms of the prefill worker are to be given back.
    pub release_prefill: bool,
    /// What the circuit breakers are to be told now.
    pub outcomes: BreakerOutcomes,
    pub next: Next,
}

/// What is still outstanding of a request that was sent to a pair.
#[derive(Clone, Copy, Debug, PartialEq, Eq, Structural)]
pub enum Phase {
    /// The prefill worker has not answered; the decode worker may have.
    Prefill { decode_early: Option<SendOutcome> },
    /// The prefill worker has served the request; the decode worker has not answered.
    Decode,
    /// Nothing is outstanding.
    Settled,
}

/// Whether a worker served a request.
pub open spec fn served(outcome: SendOutcome) -> bool {
    match outcome {
        SendOutcome::Answered(status) => is_success(status),
        SendOutcome::Failed => false,
    }
}

/// Whether the way a request ended leaves a worker blameless.
pub open spec fn blameless(outcome: SendOutcome) -> bool {
    match outcome {
        SendOutcome::Answered(status) => is_not_worker_fault(status),
        SendOutcome::Failed => false,
    }
}

/// No word to either circuit breaker.
pub open spec fn no_outcomes() -> BreakerOutcomes {
    BreakerOutcomes { prefill: None, decode: None }
}

/// What comes next once the prefill worker has served a request and the decode
/// worker has answered.
pub open spec fn after_both(is_stream: bool, decode: SendOutcome) -> (BreakerOutcomes, Next) {
    match decode {
        SendOutcome::Answered(answered) => {
            let status = received_status(answered);
            if is_success(status) {
                (no_outcomes(), Next::Serve(status))
            } else {
                (
                    BreakerOutcomes {
                        prefill: Some(true),
                        decode: if is_stream {
                            None
                        } else {
                            Some(is_not_worker_fault(status))
                        },
                    },
                    Next::ReplyDecodeRefused(status),
                )
            }
        },
        SendOutcome::Failed => (
            BreakerOutcomes { prefill: Some(true), decode: Some(false) },
            Next::ReplyDecodeUnreachable,
        ),
    }
}

/// What an answer of the prefill worker leads to.
pub open spec fn prefill_step(
    is_stream: bool,
    decode_early: Option<SendOutcome>,
    prefill: SendOutcome,
) -> DispatchStep {
    if !served(prefill) {
        DispatchStep {
            release_prefill: true,
            outcomes: BreakerOutcomes { prefill: Some(blameless(prefill)), decode: None },
            next: Next::ReplyPrefillFailure,
        }
    } else {
        match decode_early {
            None => DispatchStep {
                release_prefill: true,
                outcomes: no_outcomes(),
                next: Next::AwaitDecode,
            },
            Some(decode) => DispatchStep {
                release_prefill: true,
                outcomes: after_both(is_stream, decode).0,
                next: after_both(is_stream, decode).1,
            },
        }
    }
}

/// A request once the prefill worker has answered.
pub open spec fn prefill_answered(dispatch: DualDispatch, prefill: SendOutcome) -> DualDispatch {
    let step = prefill_step(dispatch.is_stream, dispatch.phase->decode_early, prefill);
    DualDispatch {
        is_stream: dispatch.is_stream,
        phase: if step.next is AwaitDecode {
            Phase::Decode
        } else {
            Phase::Settled
        },
    }
}

/// A request once the decode worker has answered.
pub open spec fn decode_answered(dispatch: DualDispatch, decode: SendOutcome) -> DualDispatch {
    DualDispatch {
        is_stream: dispatch.is_stream,
        phase: if dispatch.phase is Prefill {
            Phase::Prefill { decode_early: Some(decode) }
        } else {
            Phase::Settled
        },
    }
}

/// What an answer of the decode worker leads to, in a phase that awaits it.
pub open spec fn decode_step(is_stream: bool, phase: Phase, decode: SendOutcome) -> DispatchStep {
    match phase {
        Phase::Prefill { decode_early } => DispatchStep {
            release_prefill: false,
            outcomes: no_outcomes(),
            next: Next::AwaitPrefill,
        },
        _ => DispatchStep {
            release_prefill: false,
            outcomes: after_both(is_stream, decode).0,
            next: after_both(is_stream, decode).1,
        },
    }
}

/// A request that was sent to a pair.
#[derive(Clone, Copy, Debug, PartialEq, Eq, Structural)]
pub struct DualDispatch {
    pub is_stream: bool,
    pub phase: Phase,
}

/// What comes next, computed.
fn settle_both(is_stream: bool, decode: SendOutcome) -> (r: (BreakerOutcomes, Next))
    ensures
        r == after_both(is_stream, decode),
{
    match decode {
        SendOutcome::Answered(answered) => {
            let status: u16 = received_status(answered);
            if is_success(status) {
                (BreakerOutcomes { prefill: None, decode: None }, Next::Serve(status))
            } else {
                let decode = if is_stream {
                    None
                } else {
                    Some(is_not_worker_fault(status))
                };
                (
                    BreakerOutcomes { prefill: Some(true), decode },
                    Next::ReplyDecodeRefused(status),
                )
            }
        },
        SendOutcome::Failed => (
            BreakerOutcomes { prefill: Some(true), decode: Some(false) },
            Next::ReplyDecodeUnreachable,
        ),
    }
}

impl DualDispatch {
    /// A request that was just sent to both workers.
    pub fn new(is_stream: bool) -> (r: Self)
        ensures
            r == (DualDispatch { is_stream, phase: Phase::Prefill { decode_early: None } }),
    {
        DualDispatch { is_stream, phase: Phase::Prefill { decode_early: None } }
    }

    /// Whether the prefill worker is awaited.
    pub open spec fn awaits_prefill(&self) -> bool {
        self.phase is Prefill
    }

    /// Whether the decode worker is awaited.
    pub open spec fn awaits_decode(&self) -> bool {
        match self.phase {
            Phase::Prefill { decode_early } => decode_early is None,
            Phase::Decode => true,
            Phase::Settled => false,
        }
    }

    /// Takes in the answer of the prefill worker.
    pub fn on_prefill(&mut self, outcome: SendOutcome) -> (step: DispatchStep)
        requires
            old(self).awaits_prefill(),
        ensures
            step == prefill_step(old(self).is_stream, old(self).phase->decode_early, outcome),
            *final(self) == prefill_answered(*old(self), outcome),
    {
        let decode_early = match self.phase {
            Phase::Prefill { decode_early } => decode_early,
            _ => None,
        };
        let failure = match outcome {
            SendOutcome::Answered(status) => if is_success(status) {
                None
            } else {
                Some(is_client_error(status))
            },
            SendOutcome::Failed => Some(false),
        };
        match failure {
            Some(prefill_ok) => {
                self.phase = Phase::Settled;
                DispatchStep {
                    release_prefill: true,
                    outcomes: BreakerOutcomes { prefill: Some(prefill_ok), decode: None },
                    next: Next::ReplyPrefillFailure,
                }
            },
            None => match decode_early {
                Some(decode) => {
                    self.phase = Phase::Settled;
                    let (outcomes, next) = settle_both(self.is_stream, decode);
                    DispatchStep { release_prefill: true, outcomes, next }
                },
                None => {
                    self.phase = Phase::Decode;
                    DispatchStep {
                        release_prefill: true,
                        outcomes: BreakerOutcomes { prefill: None, decode: None },
                        next: Next::AwaitDecode,
                    }
                },
            },
        }
    }

    /// Takes in the answer of the decode worker. Before the prefill worker has
    /// answered it is only kept.
    pub fn on_decode(&mut self, outcome: SendOutcome) -> (step: DispatchStep)
        requires
            old(self).awaits_decode(),
        ensures
            step == decode_step(old(self).is_stream, old(self).phase, outcome),
            *final(self) == decode_answered(*old(self), outcome),
    {
        match self.phase {
            Phase::Prefill { .. } => {
                self.phase = Phase::Prefill { decode_early: Some(outcome) };
                DispatchStep {
                    release_prefill: false,
                    outcomes: BreakerOutcomes { prefill: None, decode: None },
                    next: Next::AwaitPrefill,
                }
            },
            _ => {
                self.phase = Phase::Settled;
                let (outcomes, next) = settle_both(self.is_stream, outcome);
                DispatchStep { release_prefill: false, outcomes, next }
            },
        }
    }
}

/// Whether the circuit breakers have been told while the answers came in, so
/// that the status of the reply is not theirs to be told.
pub open spec fn outcomes_recorded(next: Next) -> bool {
    next is ReplyPrefillFailure || next is ReplyDecodeUnreachable || next is ReplyDecodeRefused
}

/// What the circuit breakers are told of the status of a reply.
pub open spec fn reply_outcomes(recorded: bool, status: u16, is_stream: bool) -> BreakerOutcomes {
    if recorded {
        no_outcomes()
    } else {
        BreakerOutcomes {
            prefill: Some(is_not_worker_fault(status)),
            decode: if is_stream {
                None
            } else {
                Some(is_not_worker_fault(status))
            },
        }
    }
}

/// Whether what comes next has the circuit breakers told already.
pub fn are_outcomes_recorded(next: Next) -> (r: bool)
    ensures
        r == outcomes_recorded(next),
{
    match next {
        Next::ReplyPrefillFailure => true,
        Next::ReplyDecodeUnreachable => true,
        Next::ReplyDecodeRefused(_) => true,
        _ => false,
    }
}

/// What is reported of an attempt by the status of its reply.
#[derive(Clone, Copy, Debug, PartialEq, Eq, Structural)]
pub struct AttemptReport {
    pub outcomes: BreakerOutcomes,
    /// Whether an error is counted against both workers.
    pub worker_errors: bool,
}

/// What is reported of an attempt by the status of its reply. A streamed
/// decode response is still under way then, so its outcome is left to the stream.
pub fn attempt_report(recorded: bool, status: u16, is_stream: bool) -> (r: AttemptReport)
    ensures
        r.outcomes == reply_outcomes(recorded, status, is_stream),
        r.worker_errors == is_server_error(status),
{
    let ok = is_not_worker_fault(status);
    let outcomes = if recorded {
        BreakerOutcomes { prefill: None, decode: None }
    } else {
        let decode = if is_stream {
            None
        } else {
            Some(ok)
        };
        BreakerOutcomes { prefill: Some(ok), decode }
    };
    AttemptReport { outcomes, worker_errors: is_server_error(status) }
}

/// How the response of a decode worker is served.
#[derive(Clone, Copy, Debug, PartialEq, Eq, Structural)]
pub enum ResponseShape {
    /// As a stream, with its headers.
    Streamed,
    /// As one body that the log-probabilities of the prefill are put into, without its headers.
    Merged,
    /// As it is, with its headers.
    PassedThrough,
}

/// How the response of a decode worker is served: as a stream where one is
/// asked for, and else by whether log-probabilities are.
pub fn response_shape(is_stream: bool, return_logprob: bool) -> (r: ResponseShape)
    ensures
        r == if is_stream {
            ResponseShape::Streamed
        } else if return_logprob {
            ResponseShape::Merged
        } else {
            ResponseShape::PassedThrough
        },
{
    if is_stream {
        ResponseShape::Streamed
    } else if return_logprob {
        ResponseShape::Merged
    } else {
        ResponseShape::PassedThrough
    }
}

/// What is reported of a request once the last attempt is over.
#[derive(Clone, Copy, Debug, PartialEq, Eq, Structural)]
pub enum RouterReport {
    /// The time that a request took that was served.
    Served,
    /// An error, of a request that failed for good.
    Error,
    /// Nothing, of a request that may still be retried.
    Nothing,
}

/// What is reported of a request by the status of its last reply: the time of
/// one that succeeded, and an error of one that failed for good.
pub fn router_report(status: u16, retryable: bool) -> (r: RouterReport)
    ensures
        r == if is_success(status) {
            RouterReport::Served
        } else if retryable {
            RouterReport::Nothing
        } else {
            RouterReport::Error
        },
{
    if is_success(status) {
        RouterReport::Served
    } else if !retryable {
        RouterReport::Error
    } else {
        RouterReport::Nothing
    }
}

/// The order in which the two workers answer does not matter: it leads to the
/// same reply and tells the circuit breakers the same.
pub proof fn law_order_of_answers_does_not_matter(
    is_stream: bool,
    prefill: SendOutcome,
    decode: SendOutcome,
)
    ensures
        served(prefill) ==> {
            let decode_first = prefill_step(is_stream, Some(decode), prefill);
            let decode_last = decode_step(is_stream, Phase::Decode, decode);
            &&& prefill_step(is_stream, None, prefill).next is AwaitDecode
            &&& prefill_step(is_stream, None, prefill).outcomes == no_outcomes()
            &&& decode_first.next == decode_last.next
            &&& decode_first.outcomes == decode_last.outcomes
        },
        !served(prefill) ==> prefill_step(is_stream, Some(decode), prefill) == prefill_step(
            is_stream,
            None,
            prefill,
        ),
{
}

/// The load and the rooms of the prefill worker are given back when it answers,
/// whatever it answers, and at no other time: not one of the answers of the
/// decode worker is waited for.
pub proof fn law_prefill_is_released_when_it_answers(
    is_stream: bool,
    decode_early: Option<SendOutcome>,
    phase: Phase,
    outcome: SendOutcome,
)
    ensures
        prefill_step(is_stream, decode_early, outcome).release_prefill,
        !decode_step(is_stream, phase, outcome).release_prefill,
{
}

/// A prefill that failed ends the attempt at once, without a word on the decode
/// worker, and is held against the prefill worker unless the client is at fault.
pub proof fn law_failed_prefill_spares_decode(
    is_stream: bool,
    decode_early: Option<SendOutcome>,
    prefill: SendOutcome,
)
    requires
        !served(prefill),
    ensures
        prefill_step(is_stream, decode_early, prefill).next is ReplyPrefillFailure,
        prefill_step(is_stream, decode_early, prefill).outcomes.decode is None,
        prefill_step(is_stream, decode_early, prefill).outcomes.prefill == Some(
            prefill matches SendOutcome::Answered(status) && is_client_error(status),
        ),
{
}

/// A decode worker that fails is never held against the prefill worker that served its part.
pub proof fn law_failed_decode_spares_prefill(is_stream: bool, decode: SendOutcome)
    ensures
        after_both(is_stream, decode).0.prefill != Some(false),
        decode is Failed ==> after_both(is_stream, decode).0.decode == Some(false),
        !is_stream && !served(decode) ==> after_both(is_stream, decode).0.decode is Some,
{
}

/// How many words an outcome is.
pub open spec fn words(outcome: Option<bool>) -> nat {
    if outcome is Some {
        1
    } else {
        0
    }
}

/// The words to the two circuit breakers on an attempt whose workers answered, and
/// what came next, in the order in which the answers came.
pub open spec fn words_on_answers(
    is_stream: bool,
    decode_is_first: bool,
    prefill: SendOutcome,
    decode: SendOutcome,
) -> (nat, nat, Next) {
    if decode_is_first {
        let first = decode_step(is_stream, Phase::Prefill { decode_early: None }, decode);
        let then = prefill_step(is_stream, Some(decode), prefill);
        (
            words(first.outcomes.prefill) + words(then.outcomes.prefill),
            words(first.outcomes.decode) + words(then.outcomes.decode),
            then.next,
        )
    } else {
        let first = prefill_step(is_stream, None, prefill);
        if first.next is AwaitDecode {
            let then = decode_step(is_stream, Phase::Decode, decode);
            (
                words(first.outcomes.prefill) + words(then.outcomes.prefill),
                words(first.outcomes.decode) + words(then.outcomes.decode),
                then.next,
            )
        } else {
            (words(first.outcomes.prefill), words(first.outcomes.decode), first.next)
        }
    }
}

/// Whatever the two workers answer and in whatever order, each circuit breaker is
/// told at most once: either while the answers come in or by the status of the
/// reply. That of the prefill worker is told exactly once. That of the decode
/// worker is told nothing where the prefill failed, and where its response is
/// streamed nothing but that it could not be reached: the stream tells once it is
/// over.
pub proof fn law_breakers_are_told_at_most_once(
    is_stream: bool,
    decode_is_first: bool,
    prefill: SendOutcome,
    decode: SendOutcome,
    reply_status: u16,
)
    ensures
        ({
            let (to_prefill, to_decode, next) = words_on_answers(
                is_stream,
                decode_is_first,
                prefill,
                decode,
            );
            let then = reply_outcomes(outcomes_recorded(next), reply_status, is_stream);
            &&& to_prefill + words(then.prefill) == 1
            &&& to_decode + words(then.decode) <= 1
            &&& !served(prefill) ==> to_decode + words(then.decode) == 0
            &&& served(prefill) && !is_stream ==> to_decode + words(then.decode) == 1
            &&& served(prefill) && is_stream ==> to_decode + words(then.decode) == if decode
                is Failed {
                1nat
            } else {
                0nat
            }
        }),
{
}

} // verus!
