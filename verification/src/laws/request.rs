//! Laws on request bodies.
use vstd::prelude::*;
use std::borrow::Cow;
use axum::http::HeaderMap;
use serde_json::Value;
use crate::headers::{fields_of, first_value};
use crate::json::{json_of, Json, JsonNumber};
use crate::laws::headers::{as_shown, can_be_shown, lemma_shown};
use crate::laws::worker::is_url_of;
use crate::request::{attempt_json, with_bootstrap, PreparedWorkerRequest};
use crate::router::PDRouter;
use crate::status::ErrorReply;
use crate::text::{decimal, trimmed};
use crate::worker::Worker;

verus! {

/// A number as a document.
pub open spec fn numeral(n: int) -> Json {
    Json::Number(JsonNumber::Integer(n))
}

/// Whether a document is an object that holds a member.
pub open spec fn holds(document: Json, key: Seq<char>, value: Json) -> bool {
    &&& document is Object
    &&& document->Object_0.dom().contains(key)
    &&& document->Object_0[key] == value
}

/// Whether two objects agree on a key: both have the same member under it, or neither has one.
pub open spec fn agree_on(a: Json, b: Json, key: Seq<char>) -> bool {
    &&& a is Object && b is Object
    &&& a->Object_0.dom().contains(key) <==> b->Object_0.dom().contains(key)
    &&& a->Object_0.dom().contains(key) ==> a->Object_0[key] == b->Object_0[key]
}

/// Whether a text is an identifier that may be passed on.
pub open spec fn may_be_passed_on(id: Seq<char>) -> bool {
    &&& 1 <= id.len() <= 96
    &&& forall|i: int| 0 <= i < id.len() ==> is_plain(#[trigger] id[i])
}

/// Whether a character is an ASCII letter or digit, or one of the four marks `-`, `_`,
/// `.` and `:`, by its number.
pub open spec fn is_plain(c: char) -> bool {
    let n = c as int;
    ||| 0x61 <= n <= 0x7a
    ||| 0x41 <= n <= 0x5a
    ||| 0x30 <= n <= 0x39
    ||| n == 0x2d
    ||| n == 0x5f
    ||| n == 0x2e
    ||| n == 0x3a
}

/// The identifier that the headers of a request carry, white space around it aside.
pub open spec fn carried_id(headers: Option<&HeaderMap>) -> Option<Seq<char>> {
    if headers is Some && first_value(fields_of(*headers->0), "x-request-id"@) is Some
        && can_be_shown(first_value(fields_of(*headers->0), "x-request-id"@)->0) {
        let id = trimmed(as_shown(first_value(fields_of(*headers->0), "x-request-id"@)->0));
        if may_be_passed_on(id) {
            Some(id)
        } else {
            None
        }
    } else {
        None
    }
}

/// Whether a document is the identifier of a request, or for a batch of several the
/// list of those of its items.
pub open spec fn is_id_of(json: Json, id: Seq<char>, batch_size: Option<usize>) -> bool {
    if batch_size is Some && batch_size->0 > 1 {
        &&& json is Array
        &&& json->Array_0.len() == batch_size->0
        &&& forall|i: int|
            0 <= i < batch_size->0 ==> #[trigger] json->Array_0[i] == Json::Text(
                id + "-"@ + decimal(i as nat),
            )
    } else {
        json == Json::Text(id)
    }
}

/// The port at which a worker is met, as a document.
pub open spec fn port_of(worker: Worker) -> Json {
    if worker.worker_type is Prefill && worker.worker_type->bootstrap_port is Some {
        numeral(worker.worker_type->bootstrap_port->0 as int)
    } else {
        Json::Null
    }
}

/// Whether a document has the meeting place of a worker: its own host and port, and
/// the rooms that were drawn, each once or for a batch once for every item.
pub open spec fn has_meeting_place(
    document: Json,
    worker: Worker,
    batch_size: Option<usize>,
    rooms: Seq<u64>,
) -> bool {
    if batch_size is None {
        &&& holds(document, "bootstrap_host"@, Json::Text(worker.bootstrap_host@))
        &&& holds(document, "bootstrap_port"@, port_of(worker))
        &&& holds(document, "bootstrap_room"@, numeral(rooms[0] as int))
    } else {
        let n = batch_size->0;
        let members = document->Object_0;
        &&& document is Object
        &&& members.dom().contains("bootstrap_host"@) && members["bootstrap_host"@] is Array
        &&& members.dom().contains("bootstrap_port"@) && members["bootstrap_port"@] is Array
        &&& members.dom().contains("bootstrap_room"@) && members["bootstrap_room"@] is Array
        &&& members["bootstrap_host"@]->Array_0.len() == n
        &&& members["bootstrap_port"@]->Array_0.len() == n
        &&& members["bootstrap_room"@]->Array_0.len() == n
        &&& forall|i: int|
            0 <= i < n ==> #[trigger] members["bootstrap_host"@]->Array_0[i] == Json::Text(
                worker.bootstrap_host@,
            )
        &&& forall|i: int|
            0 <= i < n ==> #[trigger] members["bootstrap_port"@]->Array_0[i] == port_of(worker)
        &&& forall|i: int|
            0 <= i < n ==> #[trigger] members["bootstrap_room"@]->Array_0[i] == numeral(
                rooms[i] as int,
            )
    }
}

/// Whether a key is one of the meeting place.
pub open spec fn is_of_meeting_place(key: Seq<char>) -> bool {
    key == "bootstrap_host"@ || key == "bootstrap_port"@ || key == "bootstrap_room"@
}

/// The document of a body.
pub open spec fn document_of(body: Cow<'_, Value>) -> Json {
    match body {
        Cow::Borrowed(value) => json_of(*value),
        Cow::Owned(value) => json_of(value),
    }
}

proof fn lemma_id(headers: Option<&HeaderMap>)
    ensures
        crate::request::forwarded_id(headers) == carried_id(headers),
{
    if headers is Some && first_value(fields_of(*headers->0), "x-request-id"@) is Some {
        let bytes = first_value(fields_of(*headers->0), "x-request-id"@)->0;
        lemma_shown(bytes);
        lemma_may_be_passed_on(trimmed(as_shown(bytes)));
    }
}

proof fn lemma_may_be_passed_on(id: Seq<char>)
    ensures
        crate::request::is_safe_id(id) <==> may_be_passed_on(id),
{
    assert forall|c: char| #[trigger] crate::request::is_safe_char(c) == is_plain(c) by {}
    if crate::request::is_safe_id(id) {
        assert forall|i: int| 0 <= i < id.len() implies is_plain(#[trigger] id[i]) by {
            assert(crate::request::is_safe_char(id[i]));
        }
    }
    if may_be_passed_on(id) {
        assert forall|i: int| 0 <= i < id.len() implies crate::request::is_safe_char(
            #[trigger] id[i],
        ) by {
            assert(is_plain(id[i]));
        }
    }
}

proof fn lemma_keys_differ()
    ensures
        "bootstrap_host"@ != "bootstrap_port"@,
        "bootstrap_host"@ != "bootstrap_room"@,
        "bootstrap_port"@ != "bootstrap_room"@,
        "rid"@ != "bootstrap_host"@,
        "rid"@ != "bootstrap_port"@,
        "rid"@ != "bootstrap_room"@,
        "data_parallel_rank"@ != "disagg_prefill_dp_rank"@,
{
    reveal_strlit("bootstrap_host");
    reveal_strlit("bootstrap_port");
    reveal_strlit("bootstrap_room");
    reveal_strlit("rid");
    reveal_strlit("data_parallel_rank");
    reveal_strlit("disagg_prefill_dp_rank");
    assert("bootstrap_host"@[10] != "bootstrap_port"@[10]);
    assert("bootstrap_host"@[10] != "bootstrap_room"@[10]);
    assert("bootstrap_port"@[10] != "bootstrap_room"@[10]);
    assert("rid"@.len() != "bootstrap_host"@.len());
    assert("rid"@.len() != "bootstrap_port"@.len());
    assert("rid"@.len() != "bootstrap_room"@.len());
    assert("data_parallel_rank"@.len() != "disagg_prefill_dp_rank"@.len());
}

proof fn lemma_meeting_place(
    body: Json,
    worker: Worker,
    batch_size: Option<usize>,
    rooms: Seq<u64>,
)
    requires
        body is Object,
    ensures
        ({
            let after = with_bootstrap(
                body,
                worker.bootstrap_host@,
                worker.bootstrap_port(),
                batch_size,
                rooms,
            );
            &&& has_meeting_place(after, worker, batch_size, rooms)
            &&& forall|key: Seq<char>|
                !is_of_meeting_place(key) ==> #[trigger] agree_on(body, after, key)
        }),
{
    lemma_keys_differ();
}

/// An identifier may be passed on if it is of one to ninety-six letters, digits and
/// the marks `-`, `_`, `.` and `:`, and only then.
pub proof fn law_identifiers_are_told(request_id: &str, r: bool)
    requires
        call_ensures(PDRouter::is_safe_request_id, (request_id,), r),
    ensures
        r <==> may_be_passed_on(request_id@),
{
    lemma_may_be_passed_on(request_id@);
}

/// A body gets the identifier that the headers carry, every item of a batch one of its
/// own, and is otherwise unchanged; without one that may be passed on it is the same.
pub proof fn law_a_body_gets_the_carried_identifier(
    original: Value,
    headers: Option<&HeaderMap>,
    batch_size: Option<usize>,
    r: Result<Value, String>,
)
    requires
        call_ensures(PDRouter::inject_request_id_into_value, (original, headers, batch_size), r),
    ensures
        carried_id(headers) is None ==> r is Ok && r->Ok_0 == original,
        carried_id(headers) is Some && json_of(original) is Object ==> {
            let after = json_of(r->Ok_0);
            &&& r is Ok
            &&& after is Object && after->Object_0.dom().contains("rid"@)
            &&& is_id_of(after->Object_0["rid"@], carried_id(headers)->0, batch_size)
            &&& forall|key: Seq<char>|
                key != "rid"@ ==> #[trigger] agree_on(json_of(original), after, key)
        },
        carried_id(headers) is Some && json_of(original) !is Object ==> r is Err && r->Err_0@
            == "Request must be a JSON object"@,
{
    lemma_id(headers);
}

/// A body gets the host and the port of the prefill worker itself, and the rooms that
/// were drawn, and is otherwise unchanged.
pub proof fn law_a_body_gets_the_meeting_place_of_its_worker(
    original: Value,
    worker: &Worker,
    batch_size: Option<usize>,
    rooms: &Vec<u64>,
    r: Result<Value, String>,
)
    requires
        call_ensures(
            PDRouter::inject_bootstrap_into_value,
            (original, worker, batch_size, rooms),
            r,
        ),
    ensures
        json_of(original) is Object ==> {
            &&& r is Ok
            &&& has_meeting_place(json_of(r->Ok_0), *worker, batch_size, rooms@)
            &&& forall|key: Seq<char>|
                !is_of_meeting_place(key) ==> #[trigger] agree_on(
                    json_of(original),
                    json_of(r->Ok_0),
                    key,
                )
        },
        json_of(original) !is Object ==> r is Err && r->Err_0@ == "Request must be a JSON object"@,
{
    if json_of(original) is Object {
        lemma_meeting_place(json_of(original), *worker, batch_size, rooms@);
    }
}

/// Whether a body is written for an attempt: with the meeting place of the worker, the
/// identifier that the headers carry, and otherwise as it was.
pub open spec fn is_written(
    before: Json,
    after: Json,
    headers: Option<&HeaderMap>,
    worker: Worker,
    batch_size: Option<usize>,
    rooms: Seq<u64>,
) -> bool {
    &&& has_meeting_place(after, worker, batch_size, rooms)
    &&& carried_id(headers) is Some ==> after->Object_0.dom().contains("rid"@) && is_id_of(
        after->Object_0["rid"@],
        carried_id(headers)->0,
        batch_size,
    )
    &&& carried_id(headers) is None ==> agree_on(before, after, "rid"@)
    &&& forall|key: Seq<char>|
        !is_of_meeting_place(key) && key != "rid"@ ==> #[trigger] agree_on(before, after, key)
}

pub(crate) proof fn lemma_written(
    body: Json,
    headers: Option<&HeaderMap>,
    worker: Worker,
    batch_size: Option<usize>,
    rooms: Seq<u64>,
)
    requires
        body is Object,
    ensures
        is_written(
            body,
            attempt_json(
                body,
                crate::request::forwarded_id(headers),
                worker.bootstrap_host@,
                worker.bootstrap_port(),
                batch_size,
                rooms,
            ),
            headers,
            worker,
            batch_size,
            rooms,
        ),
{
    lemma_id(headers);
    lemma_keys_differ();
    let with_id = match carried_id(headers) {
        Some(id) => Json::Object(
            body->Object_0.insert("rid"@, crate::request::request_ids(id, batch_size)),
        ),
        None => body,
    };
    lemma_meeting_place(with_id, worker, batch_size, rooms);
    let after = attempt_json(
        body,
        carried_id(headers),
        worker.bootstrap_host@,
        worker.bootstrap_port(),
        batch_size,
        rooms,
    );
    assert(agree_on(with_id, after, "rid"@));
    assert forall|key: Seq<char>|
        !is_of_meeting_place(key) && key != "rid"@ implies #[trigger] agree_on(body, after, key) by {
        assert(agree_on(with_id, after, key));
    }
}

/// The body of an attempt has the identifier and the meeting place, and a body that is
/// no object is answered as one that cannot be written.
pub proof fn law_the_body_of_an_attempt(
    original: Value,
    headers: Option<&HeaderMap>,
    worker: &Worker,
    batch_size: Option<usize>,
    rooms: &Vec<u64>,
    r: Result<Value, ErrorReply>,
)
    requires
        call_ensures(
            PDRouter::attempt_body,
            (original, headers, worker, batch_size, rooms),
            r,
        ),
    ensures
        json_of(original) is Object ==> r is Ok && is_written(
            json_of(original),
            json_of(r->Ok_0),
            headers,
            *worker,
            batch_size,
            rooms@,
        ),
        json_of(original) !is Object ==> r is Err && r->Err_0.status == 500 && r->Err_0.code@
            == "serialization_failed"@ && r->Err_0.message@ == "Failed to serialize request"@,
{
    if json_of(original) is Object {
        lemma_written(json_of(original), headers, *worker, batch_size, rooms@);
    } else {
        assert(r->Err_0@.status == r->Err_0.status);
    }
}

/// Whether one object is another with a rank set under a key, where there is a rank.
pub open spec fn is_ranked(before: Json, after: Json, key: Seq<char>, rank: Option<usize>) -> bool {
    if rank is Some {
        &&& holds(after, key, numeral(rank->0 as int))
        &&& forall|other: Seq<char>| other != key ==> #[trigger] agree_on(before, after, other)
    } else {
        after == before
    }
}

/// A worker directs a body at its own rank and changes nothing else of it.
pub proof fn law_a_worker_directs_a_body_at_its_rank(
    worker: &Worker,
    body: Value,
    r: Result<Value, String>,
)
    requires
        call_ensures(Worker::prepare_request, (worker, body), r),
    ensures
        worker.dp_rank is None ==> r is Ok && r->Ok_0 == body,
        worker.dp_rank is Some && json_of(body) is Object ==> r is Ok && is_ranked(
            json_of(body),
            json_of(r->Ok_0),
            "data_parallel_rank"@,
            worker.dp_rank,
        ),
        worker.dp_rank is Some && json_of(body) !is Object ==> r is Err && r->Err_0@
            == worker.body_refusal@,
{
}

/// A decode request learns the rank of the prefill worker, and nothing else changes.
pub proof fn law_a_decode_request_learns_the_prefill_rank<'a>(
    request: Cow<'a, Value>,
    worker: &Worker,
    r: Result<Cow<'a, Value>, String>,
)
    requires
        call_ensures(PDRouter::inject_prefill_dp_rank_for_decode, (request, worker), r),
    ensures
        worker.dp_rank is None ==> r is Ok && r->Ok_0 == request,
        worker.dp_rank is Some && document_of(request) is Object ==> r is Ok && r->Ok_0 is Owned
            && is_ranked(
            document_of(request),
            document_of(r->Ok_0),
            "disagg_prefill_dp_rank"@,
            worker.dp_rank,
        ),
        worker.dp_rank is Some && document_of(request) !is Object ==> r is Err && r->Err_0@
            == "Failed to insert disagg_prefill_dp_rank because request body is not an object"@,
{
}

/// What a worker made of a body is sent to the route under its base URL, and what it
/// refused is told with its words.
pub proof fn law_a_directed_body_is_sent_as_it_is<'a>(
    route: &str,
    worker: &Worker,
    directed: Result<Value, String>,
    r: Result<PreparedWorkerRequest<'a>, String>,
)
    requires
        call_ensures(PDRouter::directed_worker_request, (route, worker, directed), r),
    ensures
        directed is Ok ==> r is Ok && is_url_of(
            r->Ok_0.endpoint_url@,
            worker.base_url@,
            route@,
        ) && r->Ok_0.body is Owned && document_of(r->Ok_0.body) == json_of(directed->Ok_0),
        directed is Err ==> r is Err && r->Err_0@ == "Failed to prepare request for worker "@
            + worker.url@ + ": "@ + directed->Err_0@,
{
    reveal_strlit("/");
    assert("/"@ =~= seq!['/']);
}

/// A request is made ready with the rank of its worker, and borrowed where nothing changes.
pub proof fn law_a_request_is_made_ready<'a>(
    route: &str,
    worker: &Worker,
    request: Cow<'a, Value>,
    r: Result<PreparedWorkerRequest<'a>, String>,
)
    requires
        call_ensures(PDRouter::prepare_worker_request, (route, worker, request), r),
    ensures
        r is Ok <==> worker.dp_rank is None || document_of(request) is Object,
        r is Ok ==> is_url_of(r->Ok_0.endpoint_url@, worker.base_url@, route@) && is_ranked(
            document_of(request),
            document_of(r->Ok_0.body),
            "data_parallel_rank"@,
            worker.dp_rank,
        ) && (r->Ok_0.body is Owned <==> worker.dp_rank is Some || request is Owned),
        r is Err ==> r->Err_0@ == "Failed to prepare request for worker "@ + worker.url@ + ": "@
            + worker.body_refusal@,
{
    reveal_strlit("/");
    assert("/"@ =~= seq!['/']);
}

/// The two requests of a pair go to the same route under the base URL of their worker
/// with the same body, but that each has the rank of its own worker and the decode
/// request alone learns that of the prefill worker.
pub proof fn law_both_requests_of_a_pair_are_made_ready<'a>(
    route: &str,
    request: &'a Value,
    prefill: &Worker,
    decode: &Worker,
    r: Result<(PreparedWorkerRequest<'a>, PreparedWorkerRequest<'a>), String>,
)
    requires
        call_ensures(PDRouter::prepare_pd_worker_requests, (route, request, prefill, decode), r),
    ensures
        r is Ok <==> json_of(*request) is Object || (prefill.dp_rank is None && decode.dp_rank
            is None),
        r is Ok ==> {
            let first = (r->Ok_0).0;
            let second = (r->Ok_0).1;
            let body = document_of(second.body);
            &&& is_url_of(first.endpoint_url@, prefill.base_url@, route@)
            &&& is_url_of(second.endpoint_url@, decode.base_url@, route@)
            &&& is_ranked(
                json_of(*request),
                document_of(first.body),
                "data_parallel_rank"@,
                prefill.dp_rank,
            )
            &&& prefill.dp_rank is None && decode.dp_rank is None ==> body == json_of(*request)
            &&& prefill.dp_rank is Some ==> holds(
                body,
                "disagg_prefill_dp_rank"@,
                numeral(prefill.dp_rank->0 as int),
            )
            &&& decode.dp_rank is Some ==> holds(
                body,
                "data_parallel_rank"@,
                numeral(decode.dp_rank->0 as int),
            )
            &&& prefill.dp_rank is None && json_of(*request) is Object ==> agree_on(
                json_of(*request),
                body,
                "disagg_prefill_dp_rank"@,
            )
            &&& decode.dp_rank is None && json_of(*request) is Object ==> agree_on(
                json_of(*request),
                body,
                "data_parallel_rank"@,
            )
            &&& json_of(*request) is Object ==> forall|key: Seq<char>|
                key != "data_parallel_rank"@ && key != "disagg_prefill_dp_rank"@
                    ==> #[trigger] agree_on(json_of(*request), body, key)
            &&& first.body is Owned <==> prefill.dp_rank is Some
            &&& second.body is Owned <==> prefill.dp_rank is Some || decode.dp_rank is Some
        },
        r is Err && prefill.dp_rank is Some ==> r->Err_0@ == "Failed to prepare request for worker "@
            + prefill.url@ + ": "@ + prefill.body_refusal@,
        r is Err && prefill.dp_rank is None ==> r->Err_0@ == "Failed to prepare request for worker "@
            + decode.url@ + ": "@ + decode.body_refusal@,
{
    reveal_strlit("/");
    assert("/"@ =~= seq!['/']);
    lemma_keys_differ();
}

} // verus!
