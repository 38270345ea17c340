//! Passing the streamed response of a decode worker on to the client.
use vstd::prelude::*;
use vstd::utf8::{decode_utf8, valid_utf8};
use serde_json::Value;
use crate::json::Json;
use crate::logprobs::{merged_chunk, optional_json};
use crate::router::PDRouter;
use crate::sse::{
    finds, fresh_state, has_done_line, law_the_open_line_fixes_the_state, open_line, pending_of,
    state_after, DetectorState, SseDoneDetector,
};
use crate::status::is_not_worker_fault;
use crate::text::{cat2, occurs_in};

verus! {

/// The content type of a streamed response.
pub const EVENT_STREAM: &'static str = "text/event-stream";

/// How a stream stands.
#[derive(Clone, Copy, Debug, PartialEq, Eq, Structural)]
pub enum StreamEnd {
    /// The stream is under way, or was given up without an end.
    Open,
    /// The stream came to its end.
    Completed,
    /// The stream failed.
    Errored,
}

/// What the circuit breaker of the decode worker is told once a stream is over:
/// nothing of one that was given up.
pub open spec fn verdict_on(end: StreamEnd) -> Option<bool> {
    match end {
        StreamEnd::Open => None,
        StreamEnd::Completed => Some(true),
        StreamEnd::Errored => Some(false),
    }
}

/// A stream that comes to its end. One that has failed stays failed.
pub open spec fn completed(end: StreamEnd) -> StreamEnd {
    match end {
        StreamEnd::Errored => StreamEnd::Errored,
        _ => StreamEnd::Completed,
    }
}

/// How a stream stands before its first chunk: failed, where the status is a
/// failure of the worker.
pub open spec fn stream_start(status: u16) -> StreamEnd {
    if is_not_worker_fault(status) {
        StreamEnd::Open
    } else {
        StreamEnd::Errored
    }
}

/// What is sent on in place of a chunk.
pub open spec fn sent_chunk(prefill_logprobs: Option<Json>, chunk: Seq<u8>) -> Seq<u8> {
    if prefill_logprobs is Some && merged_chunk(prefill_logprobs, chunk) is Some {
        merged_chunk(prefill_logprobs, chunk)->0
    } else {
        chunk
    }
}

/// What a chunk leads to.
#[derive(Debug)]
pub struct ChunkStep {
    /// The bytes to send on.
    pub send: Vec<u8>,
    /// Whether the stream is over once they are sent.
    pub last: bool,
}

/// A streamed response on its way to the client.
#[derive(Debug)]
pub struct StreamPump {
    detector: SseDoneDetector,
    prefill_logprobs: Option<Value>,
    end: StreamEnd,
}

impl StreamPump {
    /// Whether the pump is in a state that pumping can reach.
    pub closed spec fn wf(&self) -> bool {
        self.detector.wf()
    }

    /// Whether the chunks so far end in the open line `pending`.
    pub closed spec fn follows(&self, pending: Seq<u8>) -> bool {
        self.detector.follows(pending)
    }

    /// The log-probabilities that are put into the stream.
    pub closed spec fn logprobs(&self) -> Option<Json> {
        optional_json(self.prefill_logprobs)
    }

    /// What the pump has kept of the stream to know its terminal line.
    pub closed spec fn detector_state(&self) -> DetectorState {
        self.detector@
    }

    /// A pump always stands behind some open line.
    pub proof fn law_some_open_line_is_followed(&self)
        requires
            self.wf(),
        ensures
            exists|pending: Seq<u8>| self.follows(pending),
            self.follows(pending_of(self.detector_state())),
    {
        law_the_open_line_fixes_the_state(
            self.detector,
            self.detector,
            pending_of(self.detector_state()),
        );
        assert(self.follows(pending_of(self.detector_state())));
    }

    /// How the stream stands.
    pub closed spec fn spec_end(&self) -> StreamEnd {
        self.end
    }

    /// A stream before its first chunk.
    pub fn new(status: u16, return_logprob: bool, prefill_logprobs: Option<Value>) -> (r: Self)
        ensures
            r.wf(),
            r.detector_state() == fresh_state(),
            r.follows(Seq::empty()),
            r.spec_end() == stream_start(status),
            r.logprobs() == if return_logprob {
                optional_json(prefill_logprobs)
            } else {
                None
            },
    {
        let end = if is_not_worker_fault(status) {
            StreamEnd::Open
        } else {
            StreamEnd::Errored
        };
        let prefill_logprobs = if return_logprob {
            prefill_logprobs
        } else {
            None
        };
        StreamPump { detector: SseDoneDetector::default(), prefill_logprobs, end }
    }

    /// Takes in a chunk. The stream is complete with its terminal line, whether
    /// or not the client still listens.
    pub fn on_chunk(&mut self, chunk: Vec<u8>) -> (step: ChunkStep)
        requires
            old(self).wf(),
        ensures
            final(self).wf(),
            final(self).logprobs() == old(self).logprobs(),
            step.send@ == sent_chunk(old(self).logprobs(), chunk@),
            step.last == finds(old(self).detector_state(), chunk@),
            final(self).detector_state() == state_after(old(self).detector_state(), chunk@),
            final(self).spec_end() == if step.last {
                completed(old(self).spec_end())
            } else {
                old(self).spec_end()
            },
            forall|pending: Seq<u8>| #[trigger]
                old(self).follows(pending) ==> {
                    &&& step.last == has_done_line(pending + chunk@)
                    &&& final(self).follows(
                        if step.last {
                            Seq::empty()
                        } else {
                            open_line(pending + chunk@)
                        },
                    )
                },
    {
        let ghost before = *self;
        let last = self.detector.observe(chunk.as_slice());
        proof {
            assert forall|pending: Seq<u8>| #[trigger] before.follows(pending) implies {
                &&& last == has_done_line(pending + chunk@)
                &&& self.follows(
                    if last {
                        Seq::empty()
                    } else {
                        open_line(pending + chunk@)
                    },
                )
            } by {
                assert(before.detector.follows(pending));
            }
        }
        let merged = if self.prefill_logprobs.is_some() {
            PDRouter::merge_streaming_logprobs(&self.prefill_logprobs, chunk.as_slice())
        } else {
            Err(())
        };
        let send = match merged {
            Ok(bytes) => bytes,
            Err(_) => chunk,
        };
        if last {
            self.complete();
        }
        ChunkStep { send, last }
    }

    /// Takes in the end of the stream.
    pub fn on_end(&mut self)
        requires
            old(self).wf(),
        ensures
            final(self).wf(),
            final(self).spec_end() == completed(old(self).spec_end()),
            final(self).logprobs() == old(self).logprobs(),
            final(self).detector_state() == old(self).detector_state(),
    {
        self.complete();
    }

    /// Takes in the failure of the stream, and gives the message to send on.
    pub fn on_error(&mut self, error: &str) -> (message: String)
        requires
            old(self).wf(),
        ensures
            final(self).wf(),
            final(self).spec_end() is Errored,
            final(self).logprobs() == old(self).logprobs(),
            final(self).detector_state() == old(self).detector_state(),
            message@ == "Stream error: "@ + error@,
    {
        self.end = StreamEnd::Errored;
        cat2("Stream error: ", error)
    }

    /// What the circuit breaker of the decode worker is told once the stream is over.
    pub fn verdict(&self) -> (r: Option<bool>)
        ensures
            r == verdict_on(self.spec_end()),
    {
        match self.end {
            StreamEnd::Open => None,
            StreamEnd::Completed => Some(true),
            StreamEnd::Errored => Some(false),
        }
    }

    fn complete(&mut self)
        ensures
            final(self).end == completed(old(self).end),
            final(self).detector == old(self).detector,
            final(self).prefill_logprobs == old(self).prefill_logprobs,
    {
        match self.end {
            StreamEnd::Errored => {},
            _ => {
                self.end = StreamEnd::Completed;
            },
        }
    }
}

/// A stream that answers a failure of the worker is held against it, however
/// cleanly the stream itself ends; one that the client gave up before its end
/// is not held against the worker, and neither is one that puts the fault on
/// the client.
pub proof fn law_verdicts_on_streams(status: u16)
    ensures
        !is_not_worker_fault(status) ==> verdict_on(completed(stream_start(status))) == Some(false),
        is_not_worker_fault(status) ==> verdict_on(stream_start(status)) is None && verdict_on(
            completed(stream_start(status)),
        ) == Some(true),
{
}

/// A chunk that holds the terminal text, and one that is not UTF-8, is passed on
/// byte for byte.
pub proof fn law_terminal_chunks_are_unchanged(prefill_logprobs: Option<Json>, chunk: Seq<u8>)
    requires
        !valid_utf8(chunk) || occurs_in("[DONE]"@, decode_utf8(chunk)),
    ensures
        sent_chunk(prefill_logprobs, chunk) == chunk,
{
}

/// Without log-probabilities of a prefill a stream is passed on byte for byte.
pub proof fn law_streams_without_logprobs_are_unchanged(chunk: Seq<u8>)
    ensures
        sent_chunk(None, chunk) == chunk,
{
}

} // verus!
