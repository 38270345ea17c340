//! Laws on attempts.
use vstd::prelude::*;
use axum::http::HeaderMap;
use serde_json::Value;
use crate::admission::PrefillAdmissionError;
use crate::attempt::{holds_decode_load, holds_prefill_load, holds_rooms, Attempt, Stage};
use crate::dispatch::{AttemptReport, DispatchStep, Next, Phase, SendOutcome};
use crate::json::json_of;
use crate::laws::dispatch::{is_decode_step, is_prefill_step, is_report, tells_nothing};
use crate::laws::replies::is_reply;
use crate::laws::request::{is_written, lemma_written};
use crate::router::PDRouter;
use crate::status::ErrorReply;
use crate::worker::Worker;

verus! {

/// Whether two attempts are at the same request.
pub open spec fn same_request(a: Attempt, b: Attempt) -> bool {
    a.is_stream == b.is_stream && a.batch_size == b.batch_size
}

/// An attempt starts with the choice of a pair.
pub proof fn law_an_attempt_starts_with_a_choice(
    is_stream: bool,
    batch_size: Option<usize>,
    r: Attempt,
)
    requires
        call_ensures(Attempt::new, (is_stream, batch_size), r),
    ensures
        r.stage is Selecting,
        r.is_stream == is_stream,
        r.batch_size == batch_size,
{
}

/// With a pair an attempt goes on to ask for a room for every item of its batch, and
/// without one it is over, with the reply that says why.
pub proof fn law_with_a_pair_rooms_are_asked_for(
    attempt: &mut Attempt,
    failure: Option<String>,
    r: Result<usize, ErrorReply>,
)
    requires
        call_ensures(Attempt::on_selection, (attempt, failure), r),
        old(attempt).stage is Selecting,
    ensures
        same_request(*old(attempt), *final(attempt)),
        r is Ok <==> failure is None,
        r is Ok ==> final(attempt).stage is Admitting,
        r is Ok && old(attempt).batch_size is Some ==> r->Ok_0 == old(attempt).batch_size->0,
        r is Ok && old(attempt).batch_size is None ==> r->Ok_0 == 1,
        r is Err ==> final(attempt).stage is Abandoned && is_reply(
            r->Err_0,
            503,
            "server_selection_failed"@,
            "No available servers: "@ + failure->0@,
        ),
{
    if r is Err {
        assert(r->Err_0@.status == r->Err_0.status);
    }
}

/// With its rooms an attempt goes on to write its body, and without them it is over,
/// answered as the refusal of the rooms is.
pub proof fn law_with_rooms_the_body_is_written(
    attempt: &mut Attempt,
    failure: Option<PrefillAdmissionError>,
    r: Result<(), ErrorReply>,
    reply: ErrorReply,
)
    requires
        call_ensures(Attempt::on_admission, (attempt, failure), r),
        old(attempt).stage is Admitting,
        failure is Some ==> call_ensures(
            PDRouter::handle_prefill_admission_error,
            (failure->0,),
            reply,
        ),
    ensures
        same_request(*old(attempt), *final(attempt)),
        r is Ok <==> failure is None,
        r is Ok ==> final(attempt).stage is Writing,
        r is Err ==> final(attempt).stage is Abandoned && is_reply(
            r->Err_0,
            reply.status as int,
            reply.code@,
            reply.message@,
        ),
{
    if r is Err {
        assert(r->Err_0@.status == r->Err_0.status);
        assert(reply@.status == reply.status);
    }
}

/// An attempt writes its body with the identifier of the request and the meeting place
/// of its prefill worker, and is over where there is no object to write them into.
pub proof fn law_an_attempt_writes_its_body(
    attempt: &mut Attempt,
    document: Option<Value>,
    headers: Option<&HeaderMap>,
    prefill: &Worker,
    rooms: &Vec<u64>,
    r: Result<Value, ErrorReply>,
)
    requires
        call_ensures(Attempt::on_document, (attempt, document, headers, prefill, rooms), r),
        old(attempt).stage is Writing,
    ensures
        same_request(*old(attempt), *final(attempt)),
        r is Ok <==> document is Some && json_of(document->0) is Object,
        r is Ok ==> final(attempt).stage is Preparing && is_written(
            json_of(document->0),
            json_of(r->Ok_0),
            headers,
            *prefill,
            old(attempt).batch_size,
            rooms@,
        ),
        r is Err ==> final(attempt).stage is Abandoned && is_reply(
            r->Err_0,
            500,
            "serialization_failed"@,
            "Failed to serialize request"@,
        ),
{
    if document is Some && json_of(document->0) is Object {
        lemma_written(
            json_of(document->0),
            headers,
            *prefill,
            old(attempt).batch_size,
            rooms@,
        );
    }
    if r is Err {
        assert(r->Err_0@.status == r->Err_0.status);
    }
}

/// Once both requests are ready they are sent and both workers awaited; where they
/// cannot be made ready nothing is sent.
pub proof fn law_ready_requests_are_sent(
    attempt: &mut Attempt,
    failure: Option<String>,
    r: Result<(), ErrorReply>,
)
    requires
        call_ensures(Attempt::on_preparation, (attempt, failure), r),
        old(attempt).stage is Preparing,
    ensures
        same_request(*old(attempt), *final(attempt)),
        r is Ok <==> failure is None,
        r is Ok ==> {
            &&& final(attempt).stage is Dispatched
            &&& final(attempt).stage->Dispatched_0.is_stream == old(attempt).is_stream
            &&& final(attempt).stage->Dispatched_0.phase == (Phase::Prefill { decode_early: None })
        },
        r is Err ==> final(attempt).stage is Unsent && is_reply(
            r->Err_0,
            500,
            "pd_request_preparation_failed"@,
            failure->0@,
        ),
{
    if r is Err {
        assert(r->Err_0@.status == r->Err_0.status);
    }
}

/// The answer of the prefill worker leads an attempt on.
pub proof fn law_the_prefill_answer_leads_an_attempt_on(
    attempt: &mut Attempt,
    outcome: SendOutcome,
    step: DispatchStep,
)
    requires
        call_ensures(Attempt::on_prefill, (attempt, outcome), step),
        old(attempt).stage is Dispatched,
        old(attempt).stage->Dispatched_0.phase is Prefill,
    ensures
        same_request(*old(attempt), *final(attempt)),
        is_prefill_step(
            old(attempt).stage->Dispatched_0.is_stream,
            old(attempt).stage->Dispatched_0.phase->decode_early,
            outcome,
            step,
        ),
        stands_after_answering(final(attempt).stage, step.next),
        step.next is AwaitDecode ==> final(attempt).stage is Dispatched
            && final(attempt).stage->Dispatched_0.phase is Decode
            && final(attempt).stage->Dispatched_0.is_stream
            == old(attempt).stage->Dispatched_0.is_stream,
{
}

/// Whether an attempt is on its way to the reply that a step leads to.
pub open spec fn stands_after_answering(stage: Stage, next: Next) -> bool {
    next !is AwaitPrefill && next !is AwaitDecode ==> stage == Stage::Answering {
        recorded: next !is Serve,
    }
}

/// The answer of the decode worker leads an attempt on.
pub proof fn law_the_decode_answer_leads_an_attempt_on(
    attempt: &mut Attempt,
    outcome: SendOutcome,
    step: DispatchStep,
)
    requires
        call_ensures(Attempt::on_decode, (attempt, outcome), step),
        old(attempt).stage is Dispatched,
        old(attempt).stage->Dispatched_0.phase == (Phase::Prefill { decode_early: None }) || old(
            attempt,
        ).stage->Dispatched_0.phase is Decode,
    ensures
        same_request(*old(attempt), *final(attempt)),
        is_decode_step(
            old(attempt).stage->Dispatched_0.is_stream,
            old(attempt).stage->Dispatched_0.phase is Prefill,
            outcome,
            step,
        ),
        stands_after_answering(final(attempt).stage, step.next),
        step.next is AwaitPrefill ==> final(attempt).stage is Dispatched
            && final(attempt).stage->Dispatched_0.phase == (Phase::Prefill {
            decode_early: Some(outcome),
        }) && final(attempt).stage->Dispatched_0.is_stream
            == old(attempt).stage->Dispatched_0.is_stream,
{
}

/// An attempt whose decode worker is done with is over, and what was recorded stays so.
pub proof fn law_an_attempt_is_over_with_its_body(attempt: &mut Attempt)
    requires
        call_ensures(Attempt::on_body_done, (attempt,), ()),
        old(attempt).stage is Answering,
    ensures
        same_request(*old(attempt), *final(attempt)),
        forall|recorded: bool|
            old(attempt).stage == (Stage::Answering { recorded }) ==> final(attempt).stage == (
            Stage::Over { recorded }),
{
}

/// An attempt that concerned its workers is reported by the status of its reply, and
/// of any other nothing is reported.
pub proof fn law_an_attempt_is_reported(attempt: &Attempt, status: u16, r: AttemptReport)
    requires
        call_ensures(Attempt::report, (attempt, status), r),
    ensures
        attempt.stage is Unsent ==> is_report(false, status, attempt.is_stream, r),
        forall|recorded: bool|
            attempt.stage == (Stage::Answering { recorded }) || attempt.stage == (Stage::Over {
                recorded,
            }) ==> is_report(recorded, status, attempt.is_stream, r),
        attempt.stage !is Unsent && attempt.stage !is Answering && attempt.stage !is Over
            ==> tells_nothing(r.outcomes) && !r.worker_errors,
{
}

/// What an attempt holds at each stage: rooms from admission until the prefill worker
/// answers, the load of the prefill worker also while it waits for them, and that of
/// the decode worker from sending until its body is done with.
pub proof fn law_what_an_attempt_holds(
    stage: Stage,
    rooms: bool,
    prefill_load: bool,
    decode_load: bool,
)
    requires
        call_ensures(holds_rooms, (stage,), rooms),
        call_ensures(holds_prefill_load, (stage,), prefill_load),
        call_ensures(holds_decode_load, (stage,), decode_load),
    ensures
        rooms <==> stage is Writing || stage is Preparing || (stage is Dispatched
            && stage->Dispatched_0.phase is Prefill),
        prefill_load <==> rooms || stage is Admitting,
        decode_load <==> stage is Dispatched || stage is Answering,
{
}

} // verus!
