//! Laws on what the answers of a pair lead to.
use vstd::prelude::*;
use crate::dispatch::{
    are_outcomes_recorded, attempt_report, response_shape, router_report, AttemptReport,
    BreakerOutcomes, DispatchStep, DualDispatch, Next, Phase, ResponseShape, RouterReport,
    SendOutcome,
};

verus! {

/// Whether a request was answered with success.
pub open spec fn is_served(outcome: SendOutcome) -> bool {
    outcome is Answered && outcome->Answered_0 / 100 == 2
}

/// Whether the client is at fault for how a request was answered.
pub open spec fn is_clients_fault(outcome: SendOutcome) -> bool {
    outcome is Answered && outcome->Answered_0 / 100 == 4
}

/// Whether nothing is told to either circuit breaker.
pub open spec fn tells_nothing(outcomes: BreakerOutcomes) -> bool {
    outcomes.prefill is None && outcomes.decode is None
}

/// Whether a request that the prefill worker has served is settled by the answer of
/// the decode worker: its success is served and nothing told yet; its refusal is
/// answered, with prefill told of success and decode of its own part unless its
/// response is streamed; and where it could not be reached both are told.
pub open spec fn is_settled_by(is_stream: bool, decode: SendOutcome, step: DispatchStep) -> bool {
    match decode {
        SendOutcome::Failed => {
            &&& step.next is ReplyDecodeUnreachable
            &&& step.outcomes.prefill == Some(true)
            &&& step.outcomes.decode == Some(false)
        },
        SendOutcome::Answered(number) => {
            let status: int = if 100 <= number <= 999 {
                number as int
            } else {
                500
            };
            if status / 100 == 2 {
                &&& step.next is Serve
                &&& step.next->Serve_0 == status
                &&& tells_nothing(step.outcomes)
            } else {
                &&& step.next is ReplyDecodeRefused
                &&& step.next->ReplyDecodeRefused_0 == status
                &&& step.outcomes.prefill == Some(true)
                &&& is_stream ==> step.outcomes.decode is None
                &&& !is_stream ==> step.outcomes.decode == Some(status / 100 == 4)
            }
        },
    }
}

/// Whether a step is what the answer of the prefill worker leads to: its load and its
/// rooms are given back, a failure ends the attempt with a word to its own circuit
/// breaker alone, and a success goes on to the decode worker.
pub open spec fn is_prefill_step(
    is_stream: bool,
    decode_early: Option<SendOutcome>,
    prefill: SendOutcome,
    step: DispatchStep,
) -> bool {
    &&& step.release_prefill
    &&& !is_served(prefill) ==> {
        &&& step.next is ReplyPrefillFailure
        &&& step.outcomes.prefill == Some(is_clients_fault(prefill))
        &&& step.outcomes.decode is None
    }
    &&& is_served(prefill) && decode_early is None ==> step.next is AwaitDecode && tells_nothing(
        step.outcomes,
    )
    &&& is_served(prefill) && decode_early is Some ==> is_settled_by(
        is_stream,
        decode_early->0,
        step,
    )
}

/// Whether a step is what the answer of the decode worker leads to: it is kept while
/// the prefill worker has not answered, and settles the request once it has.
pub open spec fn is_decode_step(
    is_stream: bool,
    is_early: bool,
    decode: SendOutcome,
    step: DispatchStep,
) -> bool {
    &&& !step.release_prefill
    &&& is_early ==> step.next is AwaitPrefill && tells_nothing(step.outcomes)
    &&& !is_early ==> is_settled_by(is_stream, decode, step)
}

/// A request that is sent awaits both workers.
pub proof fn law_a_sent_request_awaits_both(is_stream: bool, r: DualDispatch)
    requires
        call_ensures(DualDispatch::new, (is_stream,), r),
    ensures
        r.is_stream == is_stream,
        r.phase is Prefill,
        r.phase->decode_early is None,
{
}

/// What the answer of the prefill worker leads to.
pub proof fn law_the_prefill_answer_leads_on(
    dispatch: &mut DualDispatch,
    outcome: SendOutcome,
    step: DispatchStep,
)
    requires
        call_ensures(DualDispatch::on_prefill, (dispatch, outcome), step),
        old(dispatch).phase is Prefill,
    ensures
        is_prefill_step(old(dispatch).is_stream, old(dispatch).phase->decode_early, outcome, step),
        final(dispatch).is_stream == old(dispatch).is_stream,
        step.next is AwaitDecode ==> final(dispatch).phase is Decode,
        step.next !is AwaitDecode ==> final(dispatch).phase is Settled,
{
}

/// What the answer of the decode worker leads to.
pub proof fn law_the_decode_answer_leads_on(
    dispatch: &mut DualDispatch,
    outcome: SendOutcome,
    step: DispatchStep,
)
    requires
        call_ensures(DualDispatch::on_decode, (dispatch, outcome), step),
        old(dispatch).phase !is Settled,
    ensures
        is_decode_step(old(dispatch).is_stream, old(dispatch).phase is Prefill, outcome, step),
        final(dispatch).is_stream == old(dispatch).is_stream,
        old(dispatch).phase is Prefill ==> final(dispatch).phase == (Phase::Prefill {
            decode_early: Some(outcome),
        }),
        old(dispatch).phase is Decode ==> final(dispatch).phase is Settled,
{
}

/// What the circuit breakers have been told while the answers came in.
pub proof fn law_replies_to_failures_are_recorded(next: Next, r: bool)
    requires
        call_ensures(are_outcomes_recorded, (next,), r),
    ensures
        !r <==> next is AwaitPrefill || next is AwaitDecode || next is Serve,
{
}

/// Whether a report by the status of a reply is right.
pub open spec fn is_report(
    recorded: bool,
    status: u16,
    is_stream: bool,
    report: AttemptReport,
) -> bool {
    let well = status / 100 == 2 || status / 100 == 4;
    &&& recorded ==> tells_nothing(report.outcomes)
    &&& !recorded ==> report.outcomes.prefill == Some(well)
    &&& !recorded && !is_stream ==> report.outcomes.decode == Some(well)
    &&& is_stream ==> report.outcomes.decode is None
    &&& report.worker_errors <==> status / 100 == 5
}

/// A reply tells both workers what its status says, but nothing that was told before
/// and nothing of a decode worker that still streams; a server error is counted.
pub proof fn law_a_reply_tells_what_its_status_says(
    recorded: bool,
    status: u16,
    is_stream: bool,
    r: AttemptReport,
)
    requires
        call_ensures(attempt_report, (recorded, status, is_stream), r),
    ensures
        is_report(recorded, status, is_stream, r),
{
}

/// A response is streamed where that is asked for, and else changed where
/// log-probabilities are.
pub proof fn law_responses_have_the_shape_asked_for(
    is_stream: bool,
    return_logprob: bool,
    r: ResponseShape,
)
    requires
        call_ensures(response_shape, (is_stream, return_logprob), r),
    ensures
        r is Streamed <==> is_stream,
        r is Merged <==> !is_stream && return_logprob,
{
}

/// The time of a success is reported, and an error of what is not to be tried again.
pub proof fn law_the_last_reply_is_reported(status: u16, retryable: bool, r: RouterReport)
    requires
        call_ensures(router_report, (status, retryable), r),
    ensures
        r is Served <==> status / 100 == 2,
        r is Error <==> status / 100 != 2 && !retryable,
{
}

} // verus!
