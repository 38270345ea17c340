//! Laws on streamed responses.
use vstd::prelude::*;
use serde_json::Value;
use crate::json::Json;
use crate::laws::logprobs::{held, is_event_of, is_joined, lemma_merged_is_joined, one_event};
use crate::laws::sse::{has_terminal, is_rest, lemma_terminal_and_rest};
use crate::logprobs::merged;
use crate::stream::{ChunkStep, StreamPump};

verus! {

/// Whether a status leaves a worker blameless.
pub open spec fn is_blameless(status: u16) -> bool {
    200 <= status <= 299 || 400 <= status <= 499
}

/// A stream carries the log-probabilities of the prefill if and only if they are asked
/// for, starts with nothing before it, and is held against the worker from the start
/// where its status is a failure of the worker.
pub proof fn law_a_stream_starts_as_it_is_asked(
    status: u16,
    return_logprob: bool,
    logprobs: Option<Value>,
    r: StreamPump,
    verdict: Option<bool>,
)
    requires
        call_ensures(StreamPump::new, (status, return_logprob, logprobs), r),
        call_ensures(StreamPump::verdict, (&r,), verdict),
    ensures
        r.wf(),
        r.follows(Seq::empty()),
        return_logprob ==> r.logprobs() == held(logprobs),
        !return_logprob ==> r.logprobs() is None,
        verdict == if is_blameless(status) {
            None
        } else {
            Some(false)
        },
{
}

/// A chunk that is not exactly one data event is sent on byte for byte, whatever the
/// log-probabilities of the prefill, and so is every chunk of a stream without them.
/// A chunk that is one data event is sent on as the event of its document with the
/// list of the prefill put in.
pub proof fn law_chunks_are_sent_on(pump: &mut StreamPump, chunk: Vec<u8>, step: ChunkStep)
    requires
        call_ensures(StreamPump::on_chunk, (pump, chunk), step),
    ensures
        one_event(chunk@) is None ==> step.send@ == chunk@,
        old(pump).logprobs() is None ==> step.send@ == chunk@,
        one_event(chunk@) is Some && old(pump).logprobs() is Some ==> exists|after: Json| #[trigger]
            is_joined(one_event(chunk@)->0, after, old(pump).logprobs()) && is_event_of(
                step.send@,
                after,
            ),
        final(pump).logprobs() == old(pump).logprobs(),
        final(pump).wf(),
{
    if one_event(chunk@) is Some && old(pump).logprobs() is Some {
        let document = one_event(chunk@)->0;
        let given = old(pump).logprobs();
        lemma_merged_is_joined(given, document);
        reveal_strlit("");
        assert(""@ =~= Seq::empty());
        let after = merged(given, document);
        assert(is_joined(document, after, given) && is_event_of(step.send@, after));
    }
}

/// A stream is over with the chunk that completes its terminal line, and with no other.
pub proof fn law_a_stream_is_over_with_its_terminal_line(
    pump: &mut StreamPump,
    chunk: Vec<u8>,
    step: ChunkStep,
    pending: Seq<u8>,
    rest: Seq<u8>,
)
    requires
        call_ensures(StreamPump::on_chunk, (pump, chunk), step),
        old(pump).follows(pending),
        is_rest(pending + chunk@, rest),
    ensures
        step.last <==> has_terminal(pending + chunk@),
        step.last ==> final(pump).follows(Seq::empty()),
        !step.last ==> final(pump).follows(rest),
{
    lemma_terminal_and_rest(pending + chunk@, rest);
}

/// A worker is told of success once its stream has come to its terminal line, unless
/// the stream was held against it before, and of nothing by any other chunk.
pub proof fn law_verdict_after_a_chunk(
    pump: &mut StreamPump,
    chunk: Vec<u8>,
    step: ChunkStep,
    before: Option<bool>,
    after: Option<bool>,
)
    requires
        call_ensures(StreamPump::verdict, (&*old(pump),), before),
        call_ensures(StreamPump::on_chunk, (pump, chunk), step),
        call_ensures(StreamPump::verdict, (&*final(pump),), after),
    ensures
        !step.last ==> after == before,
        step.last ==> after == Some(before != Some(false)),
{
}

/// So it is at the end of a stream.
pub proof fn law_verdict_after_the_end(
    pump: &mut StreamPump,
    before: Option<bool>,
    after: Option<bool>,
)
    requires
        call_ensures(StreamPump::verdict, (&*old(pump),), before),
        call_ensures(StreamPump::on_end, (pump,), ()),
        call_ensures(StreamPump::verdict, (&*final(pump),), after),
    ensures
        after == Some(before != Some(false)),
        final(pump).logprobs() == old(pump).logprobs(),
{
}

/// A stream that fails is held against the worker, and the client is told why.
pub proof fn law_verdict_after_a_failure(
    pump: &mut StreamPump,
    error: &str,
    message: String,
    after: Option<bool>,
)
    requires
        call_ensures(StreamPump::on_error, (pump, error), message),
        call_ensures(StreamPump::verdict, (&*final(pump),), after),
    ensures
        after == Some(false),
        message@ == "Stream error: "@ + error@,
{
}

} // verus!
