//! Joining the log-probabilities of prefill and decode responses.
use vstd::prelude::*;
use vstd::string::StrSliceExecFns;
use vstd::utf8::{decode_utf8, encode_utf8, valid_utf8};
use serde_json::Value;
use crate::json::{
    array, inner_member, into_array, json_of, jsons_of, member, member_mut,
    member_ref, parse_bytes, parse_text, parsed_bytes, parsed_text, pointer, with_member,
    write_bytes, write_text, written_bytes, written_text, Json,
};
use crate::router::PDRouter;
use crate::text::{
    cat3, contains, occurs_in, read_utf8, starts_with, strip_prefixes, trim, trimmed,
    without_prefixes,
};

verus! {

/// The member of a response that describes how it came about.
pub const META_INFO_KEY: &'static str = "meta_info";

/// The member of that description with the log-probabilities of the input.
pub const INPUT_TOKEN_LOGPROBS_KEY: &'static str = "input_token_logprobs";

/// The log-probabilities of the input that a response reports.
pub open spec fn input_logprobs(response: Json) -> Option<Json> {
    inner_member(response, META_INFO_KEY@, INPUT_TOKEN_LOGPROBS_KEY@)
}

/// A response whose reported log-probabilities of the input are set.
pub open spec fn with_input_logprobs(response: Json, logprobs: Json) -> Json {
    with_member(
        response,
        META_INFO_KEY@,
        with_member(member(response, META_INFO_KEY@)->0, INPUT_TOKEN_LOGPROBS_KEY@, logprobs),
    )
}

/// A decode response once the log-probabilities of a prefill are put before its own.
///
/// Where the decode response reports none, or the prefill's are no list,
/// nothing changes. Where the decode response reports something that is no
/// list, that becomes null.
pub open spec fn merged(prefill_logprobs: Option<Json>, decode: Json) -> Json {
    match (prefill_logprobs, input_logprobs(decode)) {
        (Some(Json::Array(first)), Some(Json::Array(then))) => with_input_logprobs(
            decode,
            Json::Array(first + then),
        ),
        (Some(Json::Array(first)), Some(_)) => with_input_logprobs(decode, Json::Null),
        _ => decode,
    }
}

/// Whether there are two lists to join.
pub open spec fn can_merge(prefill_logprobs: Option<Json>, decode: Json) -> bool {
    &&& prefill_logprobs is Some
    &&& prefill_logprobs->0 is Array
    &&& input_logprobs(decode) is Some
    &&& input_logprobs(decode)->0 is Array
}

/// Puts copies of `first` before `then`.
fn joined(first: &Vec<Value>, then: Vec<Value>) -> (r: Vec<Value>)
    ensures
        jsons_of(r@) == jsons_of(first@) + jsons_of(then@),
{
    let mut r: Vec<Value> = Vec::new();
    let mut i: usize = 0;
    while i < first.len()
        invariant
            i <= first@.len(),
            jsons_of(r@) == jsons_of(first@.take(i as int)),
        decreases first.len() - i,
    {
        let ghost before = r@;
        r.push(first[i].clone());
        assert(jsons_of(r@) =~= jsons_of(before).push(json_of(first@[i as int])));
        assert(jsons_of(first@.take(i + 1)) =~= jsons_of(first@.take(i as int)).push(
            json_of(first@[i as int]),
        ));
        i += 1;
    }
    assert(first@.take(i as int) =~= first@);
    let ghost copied = r@;
    let mut then = then;
    let ghost rest = then@;
    r.append(&mut then);
    assert(jsons_of(r@) =~= jsons_of(copied) + jsons_of(rest));
    r
}

/// Puts the log-probabilities of a prefill before those of a decode response,
/// in place, and says whether there were two lists to join.
fn merge_in_place(prefill_logprobs: &Value, decode: &mut Value) -> (r: bool)
    ensures
        json_of(*final(decode)) == merged(Some(json_of(*prefill_logprobs)), json_of(*old(decode))),
        r == can_merge(Some(json_of(*prefill_logprobs)), json_of(*old(decode))),
{
    let ghost before = json_of(*decode);
    let ghost given = json_of(*prefill_logprobs);
    let mut done = false;
    match prefill_logprobs.as_array() {
        Some(first) => match member_mut(decode, META_INFO_KEY) {
            Some(meta) => {
                let ghost meta_before = json_of(*meta);
                match member_mut(meta, INPUT_TOKEN_LOGPROBS_KEY) {
                    Some(slot) => {
                        let taken = slot.take();
                        match into_array(taken) {
                            Some(then) => {
                                let list = joined(first, then);
                                *slot = array(list);
                                done = true;
                            },
                            None => {},
                        }
                    },
                    None => {
                        assert(before->Object_0.insert(META_INFO_KEY@, meta_before)
                            =~= before->Object_0);
                    },
                }
            },
            None => {},
        },
        None => {},
    }
    done
}

impl PDRouter {
    /// Puts the log-probabilities of a prefill response before those of a
    /// decode response, and says whether there were two lists to join.
    pub fn merge_logprobs_in_json(prefill_json: &Value, decode_json: &mut Value) -> (r: bool)
        ensures
            json_of(*final(decode_json)) == merged(
                input_logprobs(json_of(*prefill_json)),
                json_of(*old(decode_json)),
            ),
            r == can_merge(input_logprobs(json_of(*prefill_json)), json_of(*old(decode_json))),
    {
        match member_ref(prefill_json, META_INFO_KEY) {
            Some(meta) => match member_ref(meta, INPUT_TOKEN_LOGPROBS_KEY) {
                Some(logprobs) => merge_in_place(logprobs, decode_json),
                None => false,
            },
            None => false,
        }
    }
}

/// The document in a chunk of a stream, where the chunk is one whole data event
/// other than the terminal one.
pub open spec fn chunk_document(chunk: Seq<u8>) -> Option<Json> {
    if !valid_utf8(chunk) {
        None
    } else {
        let text = decode_utf8(chunk);
        if !"data: "@.is_prefix_of(text) || occurs_in("[DONE]"@, text) {
            None
        } else {
            parsed_text(trimmed(without_prefixes(text, "data: "@)))
        }
    }
}

/// A document as a chunk of a stream. One that cannot be written leaves an empty event.
pub open spec fn data_event(json: Json) -> Seq<u8> {
    encode_utf8(
        "data: "@ + (match written_text(json) {
            Some(text) => text,
            None => ""@,
        }) + "\n\n"@,
    )
}

/// The chunk that is sent on in place of one that a decode worker streamed, where it changes.
pub open spec fn merged_chunk(prefill_logprobs: Option<Json>, chunk: Seq<u8>) -> Option<Seq<u8>> {
    match chunk_document(chunk) {
        Some(json) => Some(data_event(merged(prefill_logprobs, json))),
        None => None,
    }
}

/// What an optional value holds.
pub open spec fn optional_json(value: Option<Value>) -> Option<Json> {
    match value {
        Some(value) => Some(json_of(value)),
        None => None,
    }
}

/// A non-streaming body once the log-probabilities of the prefill are put
/// before its own, where both bodies are documents and the result can be written.
pub open spec fn merged_body(prefill: Seq<u8>, decode: Seq<u8>) -> Seq<u8> {
    match (parsed_bytes(prefill), parsed_bytes(decode)) {
        (Some(prefill_json), Some(decode_json)) => match written_bytes(
            merged(input_logprobs(prefill_json), decode_json),
        ) {
            Some(bytes) => bytes,
            None => decode,
        },
        _ => decode,
    }
}

/// The bytes of an optional body.
pub open spec fn body_bytes(body: Option<Vec<u8>>) -> Option<Seq<u8>> {
    match body {
        Some(bytes) => Some(bytes@),
        None => None,
    }
}

impl PDRouter {
    /// Puts the log-probabilities of a prefill before those of a document, in
    /// place, and writes the document as a chunk of a stream.
    pub fn merged_event(prefill_logprobs: &Option<Value>, document: Value) -> (r: Vec<u8>)
        ensures
            r@ == data_event(merged(optional_json(*prefill_logprobs), json_of(document))),
    {
        let mut document = document;
        match prefill_logprobs {
            Some(logprobs) => {
                merge_in_place(logprobs, &mut document);
            },
            None => {},
        }
        let written = match write_text(&document) {
            Some(text) => text,
            None => "".to_string(),
        };
        let event = cat3("data: ", written.as_str(), "\n\n");
        event.as_str().as_bytes_vec()
    }

    /// Puts the log-probabilities of a prefill before those in a chunk of a
    /// stream. A chunk that is not one whole data event, and the terminal one,
    /// are refused.
    pub fn merge_streaming_logprobs(
        prefill_logprobs: &Option<Value>,
        decode_chunk: &[u8],
    ) -> (r: Result<Vec<u8>, ()>)
        ensures
            match merged_chunk(optional_json(*prefill_logprobs), decode_chunk@) {
                Some(bytes) => r is Ok && r->Ok_0@ == bytes,
                None => r is Err,
            },
    {
        proof {
            reveal_strlit("data: ");
        }
        let text = match read_utf8(decode_chunk) {
            Some(text) => text,
            None => {
                return Err(());
            },
        };
        if !starts_with(text, "data: ") || contains(text, "[DONE]") {
            return Err(());
        }
        match parse_text(trim(strip_prefixes(text, "data: "))) {
            Some(document) => Ok(Self::merged_event(prefill_logprobs, document)),
            None => Err(()),
        }
    }

    /// Puts the log-probabilities of a prefill document before those of a decode
    /// document, and writes the result where it can be written.
    pub fn merged_document(prefill: &Value, decode: Value) -> (r: Option<Vec<u8>>)
        ensures
            body_bytes(r) == written_bytes(
                merged(input_logprobs(json_of(*prefill)), json_of(decode)),
            ),
    {
        let mut decode = decode;
        Self::merge_logprobs_in_json(prefill, &mut decode);
        write_bytes(&decode)
    }

    /// The body of a non-streaming response: the decode worker's, with the
    /// log-probabilities of the prefill put before its own where they are asked
    /// for and both bodies can be read.
    pub fn non_streaming_body(
        return_logprob: bool,
        prefill_body: &Option<Vec<u8>>,
        decode_body: Vec<u8>,
    ) -> (r: Vec<u8>)
        ensures
            r@ == if return_logprob && prefill_body is Some {
                merged_body(prefill_body->0@, decode_body@)
            } else {
                decode_body@
            },
    {
        if !return_logprob {
            return decode_body;
        }
        match prefill_body {
            Some(prefill) => match (
                parse_bytes(prefill.as_slice()),
                parse_bytes(decode_body.as_slice()),
            ) {
                (Some(prefill_json), Some(decode_json)) => match Self::merged_document(
                    &prefill_json,
                    decode_json,
                ) {
                    Some(bytes) => bytes,
                    None => decode_body,
                },
                _ => decode_body,
            },
            None => decode_body,
        }
    }

    /// The log-probabilities of a prefill that go into a stream, where they are
    /// asked for and its body reports them.
    pub fn streaming_prefill_logprobs(
        return_logprob: bool,
        prefill_body: &Option<Vec<u8>>,
    ) -> (r: Option<Value>)
        ensures
            optional_json(r) == if return_logprob && prefill_body is Some && parsed_bytes(
                prefill_body->0@,
            ) is Some {
                input_logprobs(parsed_bytes(prefill_body->0@)->0)
            } else {
                None
            },
    {
        proof {
            reveal_strlit("meta_info");
            reveal_strlit("input_token_logprobs");
        }
        if !return_logprob {
            return None;
        }
        match prefill_body {
            Some(body) => match parse_bytes(body.as_slice()) {
                Some(json) => Self::reported_logprobs(&json),
                None => None,
            },
            None => None,
        }
    }

    /// The log-probabilities of the input that a response reports.
    pub fn reported_logprobs(response: &Value) -> (r: Option<Value>)
        ensures
            optional_json(r) == input_logprobs(json_of(*response)),
    {
        proof {
            reveal_strlit("meta_info");
            reveal_strlit("input_token_logprobs");
        }
        match pointer(response, META_INFO_KEY, INPUT_TOKEN_LOGPROBS_KEY) {
            Some(logprobs) => Some(logprobs.clone()),
            None => None,
        }
    }
}

/// Joining touches nothing of a decode response but the log-probabilities of its input.
pub proof fn law_merging_changes_only_logprobs(
    prefill_logprobs: Option<Json>,
    decode: Json,
    key: Seq<char>,
)
    ensures
        key != META_INFO_KEY@ ==> member(merged(prefill_logprobs, decode), key) == member(decode, key),
        key != INPUT_TOKEN_LOGPROBS_KEY@ ==> inner_member(
            merged(prefill_logprobs, decode),
            META_INFO_KEY@,
            key,
        ) == inner_member(decode, META_INFO_KEY@, key),
{
}

/// Where there are two lists, the joined list is the prefill's followed by the decode worker's.
pub proof fn law_merged_logprobs_are_prefill_then_decode(
    prefill_logprobs: Option<Json>,
    decode: Json,
)
    requires
        can_merge(prefill_logprobs, decode),
    ensures
        input_logprobs(merged(prefill_logprobs, decode)) == Some(
            Json::Array(prefill_logprobs->0->Array_0 + input_logprobs(decode)->0->Array_0),
        ),
{
}

/// An empty list of a prefill changes nothing.
pub proof fn law_merging_nothing_changes_nothing(decode: Json)
    requires
        can_merge(Some(Json::Array(Seq::empty())), decode),
    ensures
        merged(Some(Json::Array(Seq::empty())), decode) == decode,
{
    let then = input_logprobs(decode)->0->Array_0;
    let meta = member(decode, META_INFO_KEY@)->0;
    assert(Seq::<Json>::empty() + then =~= then);
    assert(meta->Object_0.insert(INPUT_TOKEN_LOGPROBS_KEY@, Json::Array(then)) =~= meta->Object_0);
    assert(decode->Object_0.insert(META_INFO_KEY@, meta) =~= decode->Object_0);
}

/// Joining two lists one after the other is joining them at once.
pub proof fn law_merging_twice_is_merging_both(first: Seq<Json>, second: Seq<Json>, decode: Json)
    requires
        can_merge(Some(Json::Array(second)), decode),
    ensures
        merged(Some(Json::Array(first)), merged(Some(Json::Array(second)), decode)) == merged(
            Some(Json::Array(first + second)),
            decode,
        ),
{
    let then = input_logprobs(decode)->0->Array_0;
    let meta = member(decode, META_INFO_KEY@)->0;
    let once = merged(Some(Json::Array(second)), decode);
    assert(first + (second + then) =~= (first + second) + then);
    let all = Json::Array((first + second) + then);
    assert(member(once, META_INFO_KEY@)->0->Object_0.insert(INPUT_TOKEN_LOGPROBS_KEY@, all)
        =~= meta->Object_0.insert(INPUT_TOKEN_LOGPROBS_KEY@, all));
    let new_meta = Json::Object(meta->Object_0.insert(INPUT_TOKEN_LOGPROBS_KEY@, all));
    assert(once->Object_0.insert(META_INFO_KEY@, new_meta) =~= decode->Object_0.insert(
        META_INFO_KEY@,
        new_meta,
    ));
}

} // verus!
