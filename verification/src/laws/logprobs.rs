//! Laws on joining log-probabilities.
use vstd::prelude::*;
use vstd::utf8::{decode_utf8, encode_utf8, valid_utf8};
use serde_json::Value;
use crate::json::{json_of, parsed_bytes, parsed_text, written_bytes, written_text, Json};
use crate::logprobs::merged;
use crate::router::PDRouter;
use crate::status::ErrorReply;
use crate::text::{occurs_in, trimmed, without_prefixes};

verus! {

/// What an optional document says.
pub open spec fn held(value: Option<Value>) -> Option<Json> {
    if value is Some {
        Some(json_of(value->0))
    } else {
        None
    }
}

/// Whether a document has a place for the log-probabilities of its input.
pub open spec fn has_place(document: Json) -> bool {
    &&& document is Object
    &&& document->Object_0.dom().contains("meta_info"@)
    &&& document->Object_0["meta_info"@] is Object
    &&& document->Object_0["meta_info"@]->Object_0.dom().contains("input_token_logprobs"@)
}

/// What stands in that place.
pub open spec fn in_place(document: Json) -> Json {
    document->Object_0["meta_info"@]->Object_0["input_token_logprobs"@]
}

/// Whether two documents agree but for what stands in that place.
pub open spec fn agree_elsewhere(a: Json, b: Json) -> bool {
    &&& has_place(a) && has_place(b)
    &&& forall|key: Seq<char>|
        key != "meta_info"@ ==> (#[trigger] a->Object_0.dom().contains(key)
            <==> b->Object_0.dom().contains(key)) && (a->Object_0.dom().contains(key)
            ==> a->Object_0[key] == b->Object_0[key])
    &&& forall|key: Seq<char>|
        key != "input_token_logprobs"@ ==> (
        #[trigger] a->Object_0["meta_info"@]->Object_0.dom().contains(key)
            <==> b->Object_0["meta_info"@]->Object_0.dom().contains(key)) && (
        a->Object_0["meta_info"@]->Object_0.dom().contains(key)
            ==> a->Object_0["meta_info"@]->Object_0[key]
            == b->Object_0["meta_info"@]->Object_0[key])
}

/// Whether `after` is `before` with the log-probabilities of a prefill put in: the
/// list of the prefill and then its own. A list of the prefill drives out what is no
/// list, and without one, or without a place for it, nothing changes.
pub open spec fn is_joined(before: Json, after: Json, prefill: Option<Json>) -> bool {
    if prefill is Some && prefill->0 is Array && has_place(before) {
        &&& agree_elsewhere(before, after)
        &&& in_place(before) is Array ==> in_place(after) is Array && in_place(after)->Array_0
            == prefill->0->Array_0 + in_place(before)->Array_0
        &&& in_place(before) !is Array ==> in_place(after) is Null
    } else {
        after == before
    }
}

/// What a prefill response has in that place.
pub open spec fn offered(prefill: Json) -> Option<Json> {
    if has_place(prefill) {
        Some(in_place(prefill))
    } else {
        None
    }
}

/// The one document of a chunk, where the chunk is one data event and not the terminal one.
pub open spec fn one_event(chunk: Seq<u8>) -> Option<Json> {
    if valid_utf8(chunk) && "data: "@.is_prefix_of(decode_utf8(chunk)) && !occurs_in(
        "[DONE]"@,
        decode_utf8(chunk),
    ) {
        parsed_text(trimmed(without_prefixes(decode_utf8(chunk), "data: "@)))
    } else {
        None
    }
}

/// Whether bytes are a document written as one data event.
pub open spec fn is_event_of(bytes: Seq<u8>, document: Json) -> bool {
    bytes == encode_utf8(
        "data: "@ + (if written_text(document) is Some {
            written_text(document)->0
        } else {
            Seq::empty()
        }) + "\n\n"@,
    )
}

pub(crate) proof fn lemma_merged_is_joined(prefill: Option<Json>, before: Json)
    ensures
        is_joined(before, merged(prefill, before), prefill),
{
}

/// Joining in place: the decode response becomes itself with the list of the prefill
/// put before its own, and the answer is whether there were two lists.
pub proof fn law_responses_are_joined(prefill: &Value, decode: &mut Value, r: bool)
    requires
        call_ensures(PDRouter::merge_logprobs_in_json, (prefill, decode), r),
    ensures
        is_joined(json_of(*old(decode)), json_of(*final(decode)), offered(json_of(*prefill))),
        r <==> has_place(json_of(*prefill)) && in_place(json_of(*prefill)) is Array && has_place(
            json_of(*old(decode)),
        ) && in_place(json_of(*old(decode))) is Array,
{
    lemma_merged_is_joined(offered(json_of(*prefill)), json_of(*old(decode)));
}

/// An event is written of the document with the list of the prefill put in.
pub proof fn law_events_carry_both_lists(logprobs: &Option<Value>, document: Value, r: Vec<u8>)
    requires
        call_ensures(PDRouter::merged_event, (logprobs, document), r),
    ensures
        exists|after: Json| #[trigger]
            is_joined(json_of(document), after, held(*logprobs)) && is_event_of(r@, after),
{
    lemma_merged_is_joined(held(*logprobs), json_of(document));
    reveal_strlit("");
    assert(""@ =~= Seq::empty());
    let after = merged(held(*logprobs), json_of(document));
    assert(is_joined(json_of(document), after, held(*logprobs)) && is_event_of(r@, after));
}

/// A chunk is rewritten if and only if it is one data event, and then as the event of
/// its document with the list of the prefill put in.
pub proof fn law_only_single_events_are_rewritten(
    logprobs: &Option<Value>,
    chunk: &[u8],
    r: Result<Vec<u8>, ()>,
)
    requires
        call_ensures(PDRouter::merge_streaming_logprobs, (logprobs, chunk), r),
    ensures
        r is Ok <==> one_event(chunk@) is Some,
        r is Ok ==> exists|after: Json| #[trigger]
            is_joined(one_event(chunk@)->0, after, held(*logprobs)) && is_event_of(
                r->Ok_0@,
                after,
            ),
{
    if one_event(chunk@) is Some {
        let document = one_event(chunk@)->0;
        lemma_merged_is_joined(held(*logprobs), document);
        reveal_strlit("");
        assert(""@ =~= Seq::empty());
        let after = merged(held(*logprobs), document);
        assert(is_joined(document, after, held(*logprobs)) && is_event_of(r->Ok_0@, after));
    }
}

/// The document that is written of two responses has the list of the prefill put in.
pub proof fn law_written_documents_carry_both_lists(
    prefill: &Value,
    decode: Value,
    r: Option<Vec<u8>>,
)
    requires
        call_ensures(PDRouter::merged_document, (prefill, decode), r),
    ensures
        exists|after: Json| #[trigger]
            is_joined(json_of(decode), after, offered(json_of(*prefill))) && (r is Some
                <==> written_bytes(after) is Some) && (r is Some ==> r->0@ == written_bytes(
                after,
            )->0),
{
    let after = merged(offered(json_of(*prefill)), json_of(decode));
    lemma_merged_is_joined(offered(json_of(*prefill)), json_of(decode));
    assert(is_joined(json_of(decode), after, offered(json_of(*prefill))));
}

/// Whether a body is the right one to answer with, of the bodies of the two workers:
/// the writing of the decode worker's document with the list of the prefill put in,
/// or else the decode worker's own.
pub open spec fn is_answer(
    return_logprob: bool,
    prefill: Option<Vec<u8>>,
    decode: Seq<u8>,
    r: Seq<u8>,
) -> bool {
    if return_logprob && prefill is Some && parsed_bytes(prefill->0@) is Some && parsed_bytes(
        decode,
    ) is Some {
        exists|after: Json| #[trigger]
            is_joined(parsed_bytes(decode)->0, after, offered(parsed_bytes(prefill->0@)->0)) && r
                == (if written_bytes(after) is Some {
                written_bytes(after)->0
            } else {
                decode
            })
    } else {
        r == decode
    }
}

/// A body is answered with both lists where both are to be had, whatever else the
/// responses hold, and as it came in every other case.
pub proof fn law_bodies_carry_both_lists(
    return_logprob: bool,
    prefill: &Option<Vec<u8>>,
    decode: Vec<u8>,
    r: Vec<u8>,
)
    requires
        call_ensures(PDRouter::non_streaming_body, (return_logprob, prefill, decode), r),
    ensures
        is_answer(return_logprob, *prefill, decode@, r@),
{
    if return_logprob && prefill is Some && parsed_bytes(prefill->0@) is Some && parsed_bytes(
        decode@,
    ) is Some {
        let given = offered(parsed_bytes(prefill->0@)->0);
        let document = parsed_bytes(decode@)->0;
        lemma_merged_is_joined(given, document);
        assert(is_joined(document, merged(given, document), given));
    }
}

/// The response that is not streamed has the status and such a body, and one whose
/// body cannot be read is an internal error.
pub proof fn law_responses_that_are_not_streamed(
    status: u16,
    return_logprob: bool,
    prefill: &Option<Vec<u8>>,
    decode: Option<Vec<u8>>,
    r: Result<(u16, Vec<u8>), ErrorReply>,
)
    requires
        call_ensures(
            PDRouter::process_non_streaming_response,
            (status, return_logprob, prefill, decode),
            r,
        ),
    ensures
        decode is Some ==> r is Ok && r->Ok_0.0 == status && is_answer(
            return_logprob,
            *prefill,
            decode->0@,
            r->Ok_0.1@,
        ),
        decode is None ==> r is Err && r->Err_0.status == 500 && r->Err_0.code@
            == "read_response_failed"@ && r->Err_0.message@ == "Failed to read response"@,
{
    if decode is Some && return_logprob && prefill is Some && parsed_bytes(prefill->0@) is Some
        && parsed_bytes(decode->0@) is Some {
        let given = offered(parsed_bytes(prefill->0@)->0);
        let document = parsed_bytes(decode->0@)->0;
        lemma_merged_is_joined(given, document);
        assert(is_joined(document, merged(given, document), given));
    }
    if decode is None {
        assert(r->Err_0@.status == r->Err_0.status);
    }
}

/// What a response reports is what stands in its place, if anything does.
pub proof fn law_reported_logprobs_are_those_in_place(response: &Value, r: Option<Value>)
    requires
        call_ensures(PDRouter::reported_logprobs, (response,), r),
    ensures
        r is Some <==> has_place(json_of(*response)),
        r is Some ==> json_of(r->0) == in_place(json_of(*response)),
{
}

/// What goes into a stream is what the body of the prefill reports, where it is asked for.
pub proof fn law_streams_get_what_the_prefill_reports(
    return_logprob: bool,
    prefill: &Option<Vec<u8>>,
    r: Option<Value>,
)
    requires
        call_ensures(PDRouter::streaming_prefill_logprobs, (return_logprob, prefill), r),
    ensures
        r is Some <==> return_logprob && prefill is Some && parsed_bytes(prefill->0@) is Some
            && has_place(parsed_bytes(prefill->0@)->0),
        r is Some ==> json_of(r->0) == in_place(parsed_bytes(prefill->0@)->0),
{
}

} // verus!
