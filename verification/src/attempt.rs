//! One attempt at a request, from the choice of a pair to its reply.
//!
//! Neither worker is sent anything before the prefill worker has rooms for the
//! request: a decode worker would hold memory for it while it merely waits.
use vstd::prelude::*;
use axum::http::HeaderMap;
use serde_json::Value;
use crate::admission::{rejection_reply, PrefillAdmissionError};
use crate::dispatch::{
    are_outcomes_recorded, attempt_report, decode_answered, decode_step, no_outcomes,
    outcomes_recorded, prefill_answered, prefill_step, reply_outcomes, served, words, AttemptReport, BreakerOutcomes, DispatchStep,
    DualDispatch, Next, Phase, SendOutcome,
};
use crate::json::json_of;
use crate::logprobs::optional_json;
use crate::replies::{preparation_failed, selection_failed, serialization_failed};
use crate::request::{attempt_json, forwarded_id, rooms_needed};
use crate::router::PDRouter;
use crate::status::{is_server_error, ErrorReply};
use crate::worker::Worker;

verus! {

/// How far an attempt has come.
#[derive(Clone, Copy, Debug, PartialEq, Eq, Structural)]
pub enum Stage {
    /// A pair of workers is being chosen.
    Selecting,
    /// Rooms of the prefill worker are being asked for.
    Admitting,
    /// The body of the request is being written.
    Writing,
    /// The requests to the two workers are being made ready.
    Preparing,
    /// Both requests are on their way.
    Dispatched(DualDispatch),
    /// The attempt ended before it concerned a worker.
    Abandoned,
    /// The requests to the two workers could not be made ready, and nothing was sent.
    Unsent,
    /// The workers have answered and the reply is under way; `recorded` tells
    /// whether their circuit breakers know already how they did.
    Answering { recorded: bool },
    /// The decode worker is done with.
    Over { recorded: bool },
}

/// What happens to an attempt.
pub enum AttemptEvent {
    Selected(bool),
    Admitted(bool),
    Written(bool),
    Prepared(bool),
    PrefillAnswered(SendOutcome),
    DecodeAnswered(SendOutcome),
    /// The body of the decode worker was read, its stream was dropped, or there
    /// is none to come.
    BodyDone,
}

/// Where an attempt stands after an answer of one of the workers.
pub open spec fn after_answer(dispatch: DualDispatch, next: Next) -> Stage {
    if next is AwaitPrefill || next is AwaitDecode {
        Stage::Dispatched(dispatch)
    } else {
        Stage::Answering { recorded: outcomes_recorded(next) }
    }
}

/// Where an attempt stands after an event. Events that its stage does not await change nothing.
pub open spec fn next_stage(is_stream: bool, stage: Stage, event: AttemptEvent) -> Stage {
    match (stage, event) {
        (Stage::Selecting, AttemptEvent::Selected(ok)) => if ok {
            Stage::Admitting
        } else {
            Stage::Abandoned
        },
        (Stage::Admitting, AttemptEvent::Admitted(ok)) => if ok {
            Stage::Writing
        } else {
            Stage::Abandoned
        },
        (Stage::Writing, AttemptEvent::Written(ok)) => if ok {
            Stage::Preparing
        } else {
            Stage::Abandoned
        },
        (Stage::Preparing, AttemptEvent::Prepared(ok)) => if ok {
            Stage::Dispatched(
                DualDispatch { is_stream, phase: Phase::Prefill { decode_early: None } },
            )
        } else {
            Stage::Unsent
        },
        (Stage::Answering { recorded }, AttemptEvent::BodyDone) => Stage::Over { recorded },
        (Stage::Dispatched(dispatch), AttemptEvent::PrefillAnswered(outcome)) => {
            if dispatch.awaits_prefill() {
                after_answer(
                    prefill_answered(dispatch, outcome),
                    prefill_step(
                        dispatch.is_stream,
                        dispatch.phase->decode_early,
                        outcome,
                    ).next,
                )
            } else {
                stage
            }
        },
        (Stage::Dispatched(dispatch), AttemptEvent::DecodeAnswered(outcome)) => {
            if dispatch.awaits_decode() {
                after_answer(
                    decode_answered(dispatch, outcome),
                    decode_step(dispatch.is_stream, dispatch.phase, outcome).next,
                )
            } else {
                stage
            }
        },
        _ => stage,
    }
}

/// Whether an attempt holds rooms of its prefill worker: once they are had, and
/// until the worker has answered or the attempt ends without it.
#[verifier::allow_in_spec]
pub fn holds_rooms(stage: Stage) -> bool
    returns
        (match stage {
            Stage::Writing => true,
            Stage::Preparing => true,
            Stage::Dispatched(dispatch) => dispatch.phase is Prefill,
            _ => false,
        }),
{
    match stage {
        Stage::Writing => true,
        Stage::Preparing => true,
        Stage::Dispatched(dispatch) => matches!(dispatch.phase, Phase::Prefill { .. }),
        _ => false,
    }
}

/// Whether an attempt counts toward the load of its prefill worker: also while
/// it waits for rooms, so that the next requests are routed elsewhere.
#[verifier::allow_in_spec]
pub fn holds_prefill_load(stage: Stage) -> bool
    returns
        stage is Admitting || holds_rooms(stage),
{
    match stage {
        Stage::Admitting => true,
        _ => holds_rooms(stage),
    }
}

/// Whether an attempt counts toward the load of its decode worker: from when the
/// requests are sent until the body of the worker is read or its stream dropped.
#[verifier::allow_in_spec]
pub fn holds_decode_load(stage: Stage) -> bool
    returns
        stage is Dispatched || stage is Answering,
{
    match stage {
        Stage::Dispatched(_) => true,
        Stage::Answering { .. } => true,
        _ => false,
    }
}

/// One attempt at a request.
#[derive(Clone, Copy, Debug, PartialEq, Eq, Structural)]
pub struct Attempt {
    pub is_stream: bool,
    pub batch_size: Option<usize>,
    pub stage: Stage,
}

/// The rooms to ask for: one for every item of a batch.
pub open spec fn requested_rooms(batch_size: Option<usize>) -> usize {
    match batch_size {
        Some(n) => n,
        None => 1,
    }
}

/// What is reported of an attempt by the status of its reply: nothing of one
/// that ended before it concerned a worker.
pub open spec fn stage_report(stage: Stage, status: u16, is_stream: bool) -> AttemptReport {
    match stage {
        Stage::Unsent => AttemptReport {
            outcomes: reply_outcomes(false, status, is_stream),
            worker_errors: is_server_error(status),
        },
        Stage::Answering { recorded } => AttemptReport {
            outcomes: reply_outcomes(recorded, status, is_stream),
            worker_errors: is_server_error(status),
        },
        Stage::Over { recorded } => AttemptReport {
            outcomes: reply_outcomes(recorded, status, is_stream),
            worker_errors: is_server_error(status),
        },
        _ => AttemptReport {
            outcomes: BreakerOutcomes { prefill: None, decode: None },
            worker_errors: false,
        },
    }
}

/// Whether an attempt went from one state to another by an event.
pub open spec fn stepped(before: Attempt, after: Attempt, event: AttemptEvent) -> bool {
    &&& after.is_stream == before.is_stream
    &&& after.batch_size == before.batch_size
    &&& after.stage == next_stage(before.is_stream, before.stage, event)
}

impl Attempt {
    /// An attempt at its start.
    pub fn new(is_stream: bool, batch_size: Option<usize>) -> (r: Self)
        ensures
            r == (Attempt { is_stream, batch_size, stage: Stage::Selecting }),
    {
        Attempt { is_stream, batch_size, stage: Stage::Selecting }
    }

    /// Takes in the choice of a pair, or why there is none. Gives the rooms to
    /// ask of the prefill worker.
    pub fn on_selection(&mut self, failure: Option<String>) -> (r: Result<usize, ErrorReply>)
        requires
            old(self).stage is Selecting,
        ensures
            stepped(*old(self), *final(self), AttemptEvent::Selected(failure is None)),
            match failure {
                None => r is Ok && r->Ok_0 == requested_rooms(old(self).batch_size),
                Some(error) => r is Err && r->Err_0@ == selection_failed(error@),
            },
    {
        match failure {
            None => {
                self.stage = Stage::Admitting;
                Ok(
                    match self.batch_size {
                        Some(n) => n,
                        None => 1,
                    },
                )
            },
            Some(error) => {
                self.stage = Stage::Abandoned;
                Err(PDRouter::handle_server_selection_error(error.as_str()))
            },
        }
    }

    /// Takes in that the rooms are had, or why not.
    pub fn on_admission(&mut self, failure: Option<PrefillAdmissionError>) -> (r: Result<
        (),
        ErrorReply,
    >)
        requires
            old(self).stage is Admitting,
        ensures
            stepped(*old(self), *final(self), AttemptEvent::Admitted(failure is None)),
            match failure {
                None => r is Ok,
                Some(error) => r is Err && r->Err_0@ == rejection_reply(error@),
            },
    {
        match failure {
            None => {
                self.stage = Stage::Writing;
                Ok(())
            },
            Some(error) => {
                self.stage = Stage::Abandoned;
                Err(PDRouter::handle_prefill_admission_error(error))
            },
        }
    }

    /// Takes in the request as a document, where it could be made one, and
    /// gives the body that both workers are sent but for their ranks: with the
    /// identifier of the request and the meeting place of the pair.
    pub fn on_document(
        &mut self,
        document: Option<Value>,
        headers: Option<&HeaderMap>,
        prefill: &Worker,
        rooms: &Vec<u64>,
    ) -> (r: Result<Value, ErrorReply>)
        requires
            old(self).stage is Writing,
            rooms@.len() == rooms_needed(old(self).batch_size),
        ensures
            ({
                let json = optional_json(document);
                let ok = json is Some && json->0 is Object;
                &&& stepped(*old(self), *final(self), AttemptEvent::Written(ok))
                &&& r is Ok <==> ok
                &&& r is Ok ==> json_of(r->Ok_0) == attempt_json(
                    json->0,
                    forwarded_id(headers),
                    prefill.bootstrap_host@,
                    prefill.bootstrap_port(),
                    old(self).batch_size,
                    rooms@,
                )
                &&& r is Err ==> r->Err_0@ == serialization_failed()
            }),
    {
        let written = match document {
            Some(document) => PDRouter::attempt_body(
                document,
                headers,
                prefill,
                self.batch_size,
                rooms,
            ),
            None => Err(PDRouter::handle_serialization_error()),
        };
        self.stage = match &written {
            Ok(_) => Stage::Preparing,
            Err(_) => Stage::Abandoned,
        };
        written
    }

    /// Takes in that the two requests are ready and sent, or why not.
    pub fn on_preparation(&mut self, failure: Option<String>) -> (r: Result<(), ErrorReply>)
        requires
            old(self).stage is Preparing,
        ensures
            stepped(*old(self), *final(self), AttemptEvent::Prepared(failure is None)),
            match failure {
                None => r is Ok,
                Some(error) => r is Err && r->Err_0@ == preparation_failed(error@),
            },
    {
        match failure {
            None => {
                self.stage = Stage::Dispatched(DualDispatch::new(self.is_stream));
                Ok(())
            },
            Some(error) => {
                self.stage = Stage::Unsent;
                Err(PDRouter::handle_preparation_error(error))
            },
        }
    }

    /// Takes in the answer of the prefill worker.
    pub fn on_prefill(&mut self, outcome: SendOutcome) -> (step: DispatchStep)
        requires
            old(self).stage is Dispatched,
            old(self).stage->Dispatched_0.awaits_prefill(),
        ensures
            stepped(*old(self), *final(self), AttemptEvent::PrefillAnswered(outcome)),
            step == prefill_step(
                old(self).stage->Dispatched_0.is_stream,
                old(self).stage->Dispatched_0.phase->decode_early,
                outcome,
            ),
    {
        let mut dispatch = match self.stage {
            Stage::Dispatched(dispatch) => dispatch,
            _ => DualDispatch::new(self.is_stream),
        };
        let step = dispatch.on_prefill(outcome);
        self.stage = stage_after_answer(dispatch, step.next);
        step
    }

    /// Takes in the answer of the decode worker.
    pub fn on_decode(&mut self, outcome: SendOutcome) -> (step: DispatchStep)
        requires
            old(self).stage is Dispatched,
            old(self).stage->Dispatched_0.awaits_decode(),
        ensures
            stepped(*old(self), *final(self), AttemptEvent::DecodeAnswered(outcome)),
            step == decode_step(
                old(self).stage->Dispatched_0.is_stream,
                old(self).stage->Dispatched_0.phase,
                outcome,
            ),
    {
        let mut dispatch = match self.stage {
            Stage::Dispatched(dispatch) => dispatch,
            _ => DualDispatch::new(self.is_stream),
        };
        let step = dispatch.on_decode(outcome);
        self.stage = stage_after_answer(dispatch, step.next);
        step
    }

    /// Takes in that the decode worker is done with: its body was read, its
    /// stream was dropped, or there is none to come.
    pub fn on_body_done(&mut self)
        requires
            old(self).stage is Answering,
        ensures
            stepped(*old(self), *final(self), AttemptEvent::BodyDone),
    {
        match self.stage {
            Stage::Answering { recorded } => {
                self.stage = Stage::Over { recorded };
            },
            _ => {},
        }
    }

    /// What is reported of the attempt by the status of its reply.
    pub fn report(&self, status: u16) -> (r: AttemptReport)
        ensures
            r == stage_report(self.stage, status, self.is_stream),
    {
        match self.stage {
            Stage::Unsent => attempt_report(false, status, self.is_stream),
            Stage::Answering { recorded } => attempt_report(recorded, status, self.is_stream),
            Stage::Over { recorded } => attempt_report(recorded, status, self.is_stream),
            _ => AttemptReport {
                outcomes: BreakerOutcomes { prefill: None, decode: None },
                worker_errors: false,
            },
        }
    }
}

/// Where an attempt stands after an answer, computed.
fn stage_after_answer(dispatch: DualDispatch, next: Next) -> (r: Stage)
    ensures
        r == after_answer(dispatch, next),
{
    match next {
        Next::AwaitPrefill => Stage::Dispatched(dispatch),
        Next::AwaitDecode => Stage::Dispatched(dispatch),
        _ => Stage::Answering { recorded: are_outcomes_recorded(next) },
    }
}

/// Where an attempt stands after a history of events.
pub open spec fn stage_after(is_stream: bool, history: Seq<AttemptEvent>) -> Stage
    decreases history.len(),
{
    if history.len() == 0 {
        Stage::Selecting
    } else {
        next_stage(is_stream, stage_after(is_stream, history.drop_last()), history.last())
    }
}

/// What an event has the circuit breakers told at once.
pub open spec fn told_at(stage: Stage, event: AttemptEvent) -> BreakerOutcomes {
    match (stage, event) {
        (Stage::Dispatched(dispatch), AttemptEvent::PrefillAnswered(outcome)) => {
            if dispatch.awaits_prefill() {
                prefill_step(dispatch.is_stream, dispatch.phase->decode_early, outcome).outcomes
            } else {
                no_outcomes()
            }
        },
        (Stage::Dispatched(dispatch), AttemptEvent::DecodeAnswered(outcome)) => {
            if dispatch.awaits_decode() {
                decode_step(dispatch.is_stream, dispatch.phase, outcome).outcomes
            } else {
                no_outcomes()
            }
        },
        _ => no_outcomes(),
    }
}

/// The words to the circuit breakers of the prefill and the decode worker in a
/// history of events.
pub open spec fn words_in(is_stream: bool, history: Seq<AttemptEvent>) -> (nat, nat)
    decreases history.len(),
{
    if history.len() == 0 {
        (0, 0)
    } else {
        let before = words_in(is_stream, history.drop_last());
        let told = told_at(stage_after(is_stream, history.drop_last()), history.last());
        (before.0 + words(told.prefill), before.1 + words(told.decode))
    }
}

/// Whether what comes after a stage is known to the circuit breakers already.
pub open spec fn is_recorded(stage: Stage) -> bool {
    match stage {
        Stage::Answering { recorded } => recorded,
        Stage::Over { recorded } => recorded,
        _ => false,
    }
}

/// Over a whole attempt, whatever happens to it, each circuit breaker is told at
/// most once: by the answers of the workers and by the status of the reply
/// together. That of the prefill worker is told exactly once of every attempt that
/// concerned a worker, and neither is told of one that did not.
pub proof fn law_breakers_are_told_at_most_once_in_an_attempt(
    is_stream: bool,
    history: Seq<AttemptEvent>,
    reply_status: u16,
)
    ensures
        ({
            let stage = stage_after(is_stream, history);
            let report = stage_report(stage, reply_status, is_stream).outcomes;
            let (to_prefill, to_decode) = words_in(is_stream, history);
            &&& to_prefill + words(report.prefill) <= 1
            &&& to_decode + words(report.decode) <= 1
            &&& stage is Unsent || stage is Answering || stage is Over ==> to_prefill + words(
                report.prefill,
            ) == 1
            &&& !is_past_admission(stage) ==> to_prefill + words(report.prefill) == 0 && to_decode
                + words(report.decode) == 0
        }),
{
    lemma_words_are_recorded(is_stream, history);
}

proof fn lemma_words_are_recorded(is_stream: bool, history: Seq<AttemptEvent>)
    ensures
        ({
            let stage = stage_after(is_stream, history);
            let (to_prefill, to_decode) = words_in(is_stream, history);
            &&& is_recorded(stage) ==> to_prefill == 1 && to_decode <= 1
            &&& !is_recorded(stage) ==> to_prefill == 0 && to_decode == 0
        }),
    decreases history.len(),
{
    if history.len() > 0 {
        lemma_words_are_recorded(is_stream, history.drop_last());
    }
}

/// Whether the requests of an attempt were sent.
pub open spec fn was_sent(stage: Stage) -> bool {
    stage is Dispatched || stage is Answering || stage is Over
}

/// Whether an attempt came past admission.
pub open spec fn is_past_admission(stage: Stage) -> bool {
    stage is Writing || stage is Preparing || stage is Unsent || was_sent(stage)
}

/// Nothing is sent to a worker unless the rooms of the prefill worker were had,
/// and rooms are not held unless they were.
pub proof fn law_nothing_is_sent_before_rooms_are_had(is_stream: bool, history: Seq<AttemptEvent>)
    ensures
        is_past_admission(stage_after(is_stream, history)) ==> history.contains(
            AttemptEvent::Admitted(true),
        ),
        holds_rooms(stage_after(is_stream, history)) ==> history.contains(
            AttemptEvent::Admitted(true),
        ),
    decreases history.len(),
{
    if history.len() > 0 {
        let shorter = history.drop_last();
        law_nothing_is_sent_before_rooms_are_had(is_stream, shorter);
        assert(history[history.len() - 1] == history.last());
        if shorter.contains(AttemptEvent::Admitted(true)) {
            let i = choose|i: int|
                0 <= i < shorter.len() && shorter[i] == AttemptEvent::Admitted(true);
            assert(history[i] == AttemptEvent::Admitted(true));
        }
    }
}

/// Rooms are held from admission until the prefill worker answers, whatever it
/// answers. An early answer of the decode worker frees none, and once they are
/// given back they are not taken again.
pub proof fn law_rooms_are_held_until_prefill_answers(
    is_stream: bool,
    stage: Stage,
    event: AttemptEvent,
)
    ensures
        event is PrefillAnswered && stage is Dispatched && holds_rooms(stage) ==> !holds_rooms(
            next_stage(is_stream, stage, event),
        ),
        event is DecodeAnswered && holds_rooms(stage) ==> holds_rooms(
            next_stage(is_stream, stage, event),
        ),
        stage !is Selecting && stage !is Admitting && !holds_rooms(stage) ==> !holds_rooms(
            next_stage(is_stream, stage, event),
        ),
        event == AttemptEvent::Admitted(true) && stage is Admitting ==> holds_rooms(
            next_stage(is_stream, stage, event),
        ),
{
}

/// An attempt counts toward the load of its decode worker from when the requests
/// are sent, through every answer, until the body of the worker is done with, and
/// at no other time.
pub proof fn law_decode_load_is_held_until_its_body_is_done(
    is_stream: bool,
    stage: Stage,
    event: AttemptEvent,
)
    ensures
        stage is Preparing && event == AttemptEvent::Prepared(true) ==> holds_decode_load(
            next_stage(is_stream, stage, event),
        ),
        holds_decode_load(stage) && event !is BodyDone ==> holds_decode_load(
            next_stage(is_stream, stage, event),
        ),
        stage is Dispatched && event is BodyDone ==> next_stage(is_stream, stage, event) == stage,
        stage is Answering && event is BodyDone ==> !holds_decode_load(
            next_stage(is_stream, stage, event),
        ),
        !holds_decode_load(stage) && holds_decode_load(next_stage(is_stream, stage, event)) ==> stage
            is Preparing && event == AttemptEvent::Prepared(true),
{
}

/// While the decode worker generates it alone is held: when the prefill worker
/// answers first, its load and its rooms are given back at once, whatever it
/// answers, and the load of the decode worker stays.
pub proof fn law_only_decode_is_held_while_it_generates(
    is_stream: bool,
    dispatch: DualDispatch,
    prefill: SendOutcome,
)
    requires
        dispatch.phase == (Phase::Prefill { decode_early: None }),
    ensures
        ({
            let before = Stage::Dispatched(dispatch);
            let after = next_stage(is_stream, before, AttemptEvent::PrefillAnswered(prefill));
            &&& holds_prefill_load(before) && holds_rooms(before) && holds_decode_load(before)
            &&& !holds_prefill_load(after)
            &&& !holds_rooms(after)
            &&& holds_decode_load(after)
            &&& served(prefill) ==> after is Dispatched && after->Dispatched_0.phase is Decode
        }),
{
}

/// An attempt that holds rooms counts toward the load of the prefill worker, and
/// so does one that still waits for them.
pub proof fn law_waiting_requests_count_as_load(stage: Stage)
    ensures
        holds_rooms(stage) ==> holds_prefill_load(stage),
        stage is Admitting ==> holds_prefill_load(stage),
{
}

} // verus!
