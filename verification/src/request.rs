//! Requests on their way to a prefill and decode pair.
use vstd::prelude::*;
use std::borrow::Cow;
use axum::http::HeaderMap;
use serde_json::Value;
use crate::headers::{header_text, read_header};
use crate::json::{
    array, integer, json_of, jsons_of, member, null, number, set_member, text, with_member, Json,
};
use crate::replies::serialization_failed;
use crate::router::PDRouter;
use crate::status::ErrorReply;
use crate::text::{cat3, cat4, decimal, decimal_text, lemma_decimal_injective, trim, trimmed};
use crate::worker::{endpoint_url, Worker};

verus! {

/// The header that carries the identifier of a request.
pub const REQUEST_ID_HEADER: &'static str = "x-request-id";

/// The member of a request body that carries the identifier of a request.
pub const REQUEST_ID_BODY_KEY: &'static str = "rid";

/// The length up to which the identifier of a request is passed on.
pub const MAX_FORWARDED_REQUEST_ID_LEN: usize = 96;

pub const BOOTSTRAP_HOST_KEY: &'static str = "bootstrap_host";

pub const BOOTSTRAP_PORT_KEY: &'static str = "bootstrap_port";

pub const BOOTSTRAP_ROOM_KEY: &'static str = "bootstrap_room";

pub const DISAGG_PREFILL_DP_RANK_KEY: &'static str = "disagg_prefill_dp_rank";

pub const DATA_PARALLEL_RANK_KEY: &'static str = "data_parallel_rank";

/// Whether a character may stand in the identifier of a request.
pub open spec fn is_safe_char(c: char) -> bool {
    ||| 'a' <= c <= 'z'
    ||| 'A' <= c <= 'Z'
    ||| '0' <= c <= '9'
    ||| c == '-'
    ||| c == '_'
    ||| c == '.'
    ||| c == ':'
}

/// Whether a text is an identifier that is passed on: of letters, digits and
/// the marks `-`, `_`, `.` and `:`, and neither empty nor too long.
pub open spec fn is_safe_id(id: Seq<char>) -> bool {
    &&& 1 <= id.len() <= MAX_FORWARDED_REQUEST_ID_LEN
    &&& forall|i: int| 0 <= i < id.len() ==> is_safe_char(#[trigger] id[i])
}

/// The identifier that a request's headers give it, where they give one that is passed on.
pub open spec fn forwarded_id(headers: Option<&HeaderMap>) -> Option<Seq<char>> {
    match header_text(headers, REQUEST_ID_HEADER@) {
        Some(raw) => if is_safe_id(trimmed(raw)) {
            Some(trimmed(raw))
        } else {
            None
        },
        None => None,
    }
}

/// The identifier of one item of a batch.
pub open spec fn item_id(id: Seq<char>, index: nat) -> Seq<char> {
    id + "-"@ + decimal(index)
}

/// The identifiers of a request: one of its own for every item of a batch, and
/// the identifier itself where there is no more than one item.
pub open spec fn request_ids(id: Seq<char>, batch_size: Option<usize>) -> Json {
    if batch_size is Some && batch_size->0 > 1 {
        Json::Array(Seq::new(batch_size->0 as nat, |i: int| Json::Text(item_id(id, i as nat))))
    } else {
        Json::Text(id)
    }
}

/// The message on a request body that is no object.
pub open spec fn not_an_object() -> Seq<char> {
    "Request must be a JSON object"@
}

/// A port as a JSON document.
pub open spec fn port_json(port: Option<u16>) -> Json {
    match port {
        Some(port) => integer(port as int),
        None => Json::Null,
    }
}

/// A request body with the place where prefill and decode meet.
///
/// For a batch of `n` every one of the three members is a list of `n` items:
/// the same host and port over and over, and a room for each item.
pub open spec fn with_bootstrap(
    body: Json,
    host: Seq<char>,
    port: Option<u16>,
    batch_size: Option<usize>,
    rooms: Seq<u64>,
) -> Json {
    match batch_size {
        Some(n) => with_member(
            with_member(
                with_member(
                    body,
                    BOOTSTRAP_HOST_KEY@,
                    Json::Array(Seq::new(n as nat, |i: int| Json::Text(host))),
                ),
                BOOTSTRAP_PORT_KEY@,
                Json::Array(Seq::new(n as nat, |i: int| port_json(port))),
            ),
            BOOTSTRAP_ROOM_KEY@,
            Json::Array(Seq::new(n as nat, |i: int| integer(rooms[i] as int))),
        ),
        None => with_member(
            with_member(
                with_member(body, BOOTSTRAP_HOST_KEY@, Json::Text(host)),
                BOOTSTRAP_PORT_KEY@,
                port_json(port),
            ),
            BOOTSTRAP_ROOM_KEY@,
            integer(rooms[0] as int),
        ),
    }
}

/// The rooms that a request needs: one for every item of a batch.
pub open spec fn rooms_needed(batch_size: Option<usize>) -> nat {
    match batch_size {
        Some(n) => n as nat,
        None => 1,
    }
}

/// Builds a port value.
fn port_value(port: Option<u16>) -> (r: Value)
    ensures
        json_of(r) == port_json(port),
{
    match port {
        Some(port) => number(port as u64),
        None => null(),
    }
}

impl PDRouter {
    /// Whether the identifier of a request is passed on.
    pub fn is_safe_request_id(request_id: &str) -> (r: bool)
        ensures
            r == is_safe_id(request_id@),
    {
        if request_id.is_empty() || !request_id.is_ascii() {
            return false;
        }
        let bytes = request_id.as_bytes();
        if bytes.len() > MAX_FORWARDED_REQUEST_ID_LEN {
            return false;
        }
        let mut i: usize = 0;
        while i < bytes.len()
            invariant
                i <= bytes@.len(),
                bytes@.len() == request_id@.len(),
                forall|j: int| 0 <= j < bytes@.len() ==> #[trigger] bytes@[j] == request_id@[j] as u8,
                vstd::string::is_ascii(request_id),
                forall|j: int| 0 <= j < i ==> is_safe_char(#[trigger] request_id@[j]),
            decreases bytes.len() - i,
        {
            let byte = bytes[i];
            if !is_safe_byte(byte) {
                assert(!is_safe_char(request_id@[i as int]));
                return false;
            }
            i += 1;
        }
        true
    }

    /// Gives a request body the identifier that the request's headers carry, so
    /// that both workers see it under one key.
    ///
    /// An identifier that is missing or not safe to pass on is ignored.
    pub fn inject_request_id_into_value(
        original: Value,
        headers: Option<&HeaderMap>,
        batch_size: Option<usize>,
    ) -> (r: Result<Value, String>)
        ensures
            match forwarded_id(headers) {
                None => r is Ok && r->Ok_0 == original,
                Some(id) => if json_of(original) is Object {
                    &&& r is Ok
                    &&& json_of(r->Ok_0) == with_member(
                        json_of(original),
                        REQUEST_ID_BODY_KEY@,
                        request_ids(id, batch_size),
                    )
                } else {
                    r is Err && r->Err_0@ == not_an_object()
                },
            },
    {
        proof {
            lemma_request_id_header();
        }
        let raw = match read_header(headers, REQUEST_ID_HEADER) {
            Some(raw) => raw,
            None => {
                return Ok(original);
            },
        };
        let request_id = trim(raw);
        if !Self::is_safe_request_id(request_id) {
            return Ok(original);
        }
        let rid = match batch_size {
            Some(size) if size > 1 => item_ids(request_id, size),
            _ => text(request_id),
        };
        let mut body = original;
        if set_member(&mut body, REQUEST_ID_BODY_KEY, rid) {
            Ok(body)
        } else {
            Err("Request must be a JSON object".to_string())
        }
    }

    /// Gives a request body the place where prefill and decode meet: the host
    /// and port of the prefill worker, and the rooms drawn for the request.
    pub fn inject_bootstrap_into_value(
        original: Value,
        prefill_worker: &Worker,
        batch_size: Option<usize>,
        rooms: &Vec<u64>,
    ) -> (r: Result<Value, String>)
        requires
            rooms@.len() == rooms_needed(batch_size),
        ensures
            if json_of(original) is Object {
                &&& r is Ok
                &&& json_of(r->Ok_0) == with_bootstrap(
                    json_of(original),
                    prefill_worker.bootstrap_host@,
                    prefill_worker.bootstrap_port(),
                    batch_size,
                    rooms@,
                )
            } else {
                r is Err && r->Err_0@ == not_an_object()
            },
    {
        let host = prefill_worker.bootstrap_host.as_str();
        let port = prefill_worker.bootstrap_port();
        let (host_value, port_value, room_value) = match batch_size {
            Some(n) => bootstrap_lists(host, port, n, rooms),
            None => (text(host), port_value(port), number(rooms[0])),
        };
        let mut body = original;
        if !set_member(&mut body, BOOTSTRAP_HOST_KEY, host_value) {
            return Err("Request must be a JSON object".to_string());
        }
        set_member(&mut body, BOOTSTRAP_PORT_KEY, port_value);
        set_member(&mut body, BOOTSTRAP_ROOM_KEY, room_value);
        Ok(body)
    }
}

/// A request body as it is written for one attempt: with the identifier of the
/// request, where there is one, and the meeting place of the pair.
pub open spec fn attempt_json(
    body: Json,
    id: Option<Seq<char>>,
    host: Seq<char>,
    port: Option<u16>,
    batch_size: Option<usize>,
    rooms: Seq<u64>,
) -> Json {
    let with_id = match id {
        Some(id) => with_member(body, REQUEST_ID_BODY_KEY@, request_ids(id, batch_size)),
        None => body,
    };
    with_bootstrap(with_id, host, port, batch_size, rooms)
}

impl PDRouter {
    /// Writes a request body for one attempt.
    pub fn attempt_body(
        original: Value,
        headers: Option<&HeaderMap>,
        prefill_worker: &Worker,
        batch_size: Option<usize>,
        rooms: &Vec<u64>,
    ) -> (r: Result<Value, ErrorReply>)
        requires
            rooms@.len() == rooms_needed(batch_size),
        ensures
            if json_of(original) is Object {
                &&& r is Ok
                &&& json_of(r->Ok_0) == attempt_json(
                    json_of(original),
                    forwarded_id(headers),
                    prefill_worker.bootstrap_host@,
                    prefill_worker.bootstrap_port(),
                    batch_size,
                    rooms@,
                )
            } else {
                r is Err && r->Err_0@ == serialization_failed()
            },
    {
        let with_id = match Self::inject_request_id_into_value(original, headers, batch_size) {
            Ok(body) => body,
            Err(_) => {
                return Err(Self::handle_serialization_error());
            },
        };
        match Self::inject_bootstrap_into_value(with_id, prefill_worker, batch_size, rooms) {
            Ok(body) => Ok(body),
            Err(_) => Err(Self::handle_serialization_error()),
        }
    }
}

/// What a borrowed or owned document holds.
pub open spec fn cow_json(value: Cow<'_, Value>) -> Json {
    match value {
        Cow::Borrowed(value) => json_of(*value),
        Cow::Owned(value) => json_of(value),
    }
}

/// The document itself, cloned where it is borrowed.
fn into_owned(value: Cow<'_, Value>) -> (r: Value)
    ensures
        json_of(r) == cow_json(value),
{
    match value {
        Cow::Borrowed(value) => value.clone(),
        Cow::Owned(value) => value,
    }
}

/// A request that is ready to be sent to a worker.
#[derive(Debug)]
pub struct PreparedWorkerRequest<'a> {
    pub endpoint_url: String,
    pub body: Cow<'a, Value>,
}

/// A request body with the data-parallel rank that is to serve it, where there is one.
pub open spec fn with_rank(body: Json, key: Seq<char>, rank: Option<usize>) -> Json {
    match rank {
        Some(rank) => with_member(body, key, integer(rank as int)),
        None => body,
    }
}

/// Whether a request is ready: under the worker's endpoint, with a body that
/// holds `body`, and owned if and only if it was changed on the way.
pub open spec fn is_prepared(
    request: PreparedWorkerRequest<'_>,
    worker: Worker,
    route: Seq<char>,
    body: Json,
    changed: bool,
) -> bool {
    &&& request.endpoint_url@ == endpoint_url(worker.base_url@, route)
    &&& cow_json(request.body) == body
    &&& request.body is Owned <==> changed
}

impl Worker {
    /// Directs a request body at the data-parallel rank of this worker. A body
    /// that is no object is refused in the words of the worker.
    pub fn prepare_request(&self, body: Value) -> (r: Result<Value, String>)
        ensures
            if self.dp_rank is None {
                r is Ok && r->Ok_0 == body
            } else if json_of(body) is Object {
                r is Ok && json_of(r->Ok_0) == with_rank(
                    json_of(body),
                    DATA_PARALLEL_RANK_KEY@,
                    self.dp_rank,
                )
            } else {
                r is Err && r->Err_0@ == self.body_refusal@
            },
    {
        match self.dp_rank {
            Some(rank) => {
                let mut body = body;
                if set_member(&mut body, DATA_PARALLEL_RANK_KEY, number(rank as u64)) {
                    Ok(body)
                } else {
                    Err(self.body_refusal.clone())
                }
            },
            None => Ok(body),
        }
    }
}

/// The message where a worker refuses to take a request body.
pub open spec fn worker_refused(worker: Worker, refusal: Seq<char>) -> Seq<char> {
    "Failed to prepare request for worker "@ + worker.url@ + ": "@ + refusal
}

impl PDRouter {
    /// Tells a decode request which data-parallel rank of the prefill worker it belongs to.
    pub fn inject_prefill_dp_rank_for_decode<'a>(
        decode_request: Cow<'a, Value>,
        prefill_worker: &Worker,
    ) -> (r: Result<Cow<'a, Value>, String>)
        ensures
            match prefill_worker.dp_rank {
                None => r is Ok && r->Ok_0 == decode_request,
                Some(rank) => if cow_json(decode_request) is Object {
                    &&& r is Ok
                    &&& r->Ok_0 is Owned
                    &&& cow_json(r->Ok_0) == with_rank(
                        cow_json(decode_request),
                        DISAGG_PREFILL_DP_RANK_KEY@,
                        Some(rank),
                    )
                } else {
                    r is Err && r->Err_0@
                        == "Failed to insert disagg_prefill_dp_rank because request body is not an object"@
                },
            },
    {
        let rank: usize = match prefill_worker.dp_rank {
            Some(rank) => rank,
            None => {
                return Ok(decode_request);
            },
        };
        let mut body = into_owned(decode_request);
        if set_member(&mut body, DISAGG_PREFILL_DP_RANK_KEY, number(rank as u64)) {
            Ok(Cow::Owned(body))
        } else {
            Err(
                "Failed to insert disagg_prefill_dp_rank because request body is not an object".to_string(),
            )
        }
    }

    /// Makes a request ready for a worker that directed its body at a rank, or
    /// says that the worker refused to.
    pub fn directed_worker_request<'a>(
        route: &str,
        worker: &Worker,
        directed: Result<Value, String>,
    ) -> (r: Result<PreparedWorkerRequest<'a>, String>)
        ensures
            match directed {
                Ok(body) => {
                    &&& r is Ok
                    &&& r->Ok_0.endpoint_url@ == endpoint_url(worker.base_url@, route@)
                    &&& r->Ok_0.body == Cow::<Value>::Owned(body)
                },
                Err(refusal) => r is Err && r->Err_0@ == worker_refused(*worker, refusal@),
            },
    {
        match directed {
            Ok(body) => Ok(
                PreparedWorkerRequest {
                    endpoint_url: Self::worker_endpoint_url(worker, route),
                    body: Cow::Owned(body),
                },
            ),
            Err(refusal) => Err(
                cat4(
                    "Failed to prepare request for worker ",
                    worker.url.as_str(),
                    ": ",
                    refusal.as_str(),
                ),
            ),
        }
    }

    /// Makes a request ready for a worker.
    pub fn prepare_worker_request<'a>(
        route: &str,
        worker: &Worker,
        json_request: Cow<'a, Value>,
    ) -> (r: Result<PreparedWorkerRequest<'a>, String>)
        ensures
            if worker.dp_rank is None || cow_json(json_request) is Object {
                &&& r is Ok
                &&& is_prepared(
                    r->Ok_0,
                    *worker,
                    route@,
                    with_rank(cow_json(json_request), DATA_PARALLEL_RANK_KEY@, worker.dp_rank),
                    worker.dp_rank is Some || json_request is Owned,
                )
            } else {
                r is Err && r->Err_0@ == worker_refused(*worker, worker.body_refusal@)
            },
    {
        if worker.dp_rank.is_some() {
            Self::directed_worker_request(
                route,
                worker,
                worker.prepare_request(into_owned(json_request)),
            )
        } else {
            Ok(
                PreparedWorkerRequest {
                    endpoint_url: Self::worker_endpoint_url(worker, route),
                    body: json_request,
                },
            )
        }
    }

    /// Makes the two requests of a pair ready.
    pub fn prepare_pd_worker_requests<'a>(
        route: &str,
        json_request: &'a Value,
        prefill: &Worker,
        decode: &Worker,
    ) -> (r: Result<(PreparedWorkerRequest<'a>, PreparedWorkerRequest<'a>), String>)
        ensures
            r is Ok <==> json_of(*json_request) is Object || (prefill.dp_rank is None
                && decode.dp_rank is None),
            r is Ok ==> {
                &&& is_prepared(
                    r->Ok_0.0,
                    *prefill,
                    route@,
                    prefill_body(json_of(*json_request), prefill.dp_rank),
                    prefill.dp_rank is Some,
                )
                &&& is_prepared(
                    r->Ok_0.1,
                    *decode,
                    route@,
                    decode_body(json_of(*json_request), prefill.dp_rank, decode.dp_rank),
                    prefill.dp_rank is Some || decode.dp_rank is Some,
                )
            },
            r is Err ==> r->Err_0@ == if prefill.dp_rank is Some {
                worker_refused(*prefill, prefill.body_refusal@)
            } else {
                worker_refused(*decode, decode.body_refusal@)
            },
    {
        let prefill_request = match Self::prepare_worker_request(
            route,
            prefill,
            Cow::Borrowed(json_request),
        ) {
            Ok(request) => request,
            Err(message) => {
                return Err(message);
            },
        };
        let decode_json_request = match Self::inject_prefill_dp_rank_for_decode(
            Cow::Borrowed(json_request),
            prefill,
        ) {
            Ok(body) => body,
            Err(message) => {
                return Err(message);
            },
        };
        let decode_request = match Self::prepare_worker_request(route, decode, decode_json_request) {
            Ok(request) => request,
            Err(message) => {
                return Err(message);
            },
        };
        Ok((prefill_request, decode_request))
    }
}

/// The body that goes to the prefill worker of a pair.
pub open spec fn prefill_body(request: Json, prefill_rank: Option<usize>) -> Json {
    with_rank(request, DATA_PARALLEL_RANK_KEY@, prefill_rank)
}

/// The body that goes to the decode worker of a pair.
pub open spec fn decode_body(
    request: Json,
    prefill_rank: Option<usize>,
    decode_rank: Option<usize>,
) -> Json {
    with_rank(
        with_rank(request, DISAGG_PREFILL_DP_RANK_KEY@, prefill_rank),
        DATA_PARALLEL_RANK_KEY@,
        decode_rank,
    )
}

/// Both workers of a pair see the request as it is, the identifier and the
/// meeting place included: only the two rank members can differ from it.
pub proof fn law_both_bodies_carry_the_request(
    request: Json,
    prefill_rank: Option<usize>,
    decode_rank: Option<usize>,
    key: Seq<char>,
)
    requires
        request is Object,
        key != DATA_PARALLEL_RANK_KEY@,
        key != DISAGG_PREFILL_DP_RANK_KEY@,
    ensures
        member(prefill_body(request, prefill_rank), key) == member(request, key),
        member(decode_body(request, prefill_rank, decode_rank), key) == member(request, key),
{
}

/// Each worker is directed at its own rank; the decode worker alone learns the
/// rank of the prefill worker.
pub proof fn law_each_body_carries_its_own_rank(
    request: Json,
    prefill_rank: usize,
    decode_rank: usize,
)
    requires
        request is Object,
    ensures
        member(prefill_body(request, Some(prefill_rank)), DATA_PARALLEL_RANK_KEY@) == Some(
            integer(prefill_rank as int),
        ),
        member(prefill_body(request, Some(prefill_rank)), DISAGG_PREFILL_DP_RANK_KEY@) == member(
            request,
            DISAGG_PREFILL_DP_RANK_KEY@,
        ),
        member(
            decode_body(request, Some(prefill_rank), Some(decode_rank)),
            DATA_PARALLEL_RANK_KEY@,
        ) == Some(integer(decode_rank as int)),
        member(
            decode_body(request, Some(prefill_rank), Some(decode_rank)),
            DISAGG_PREFILL_DP_RANK_KEY@,
        ) == Some(integer(prefill_rank as int)),
{
    reveal_strlit("data_parallel_rank");
    reveal_strlit("disagg_prefill_dp_rank");
    assert(DATA_PARALLEL_RANK_KEY@.len() != DISAGG_PREFILL_DP_RANK_KEY@.len());
}

/// Without data-parallel ranks both workers get the request unchanged.
pub proof fn law_requests_without_ranks_are_unchanged(request: Json)
    ensures
        prefill_body(request, None) == request,
        decode_body(request, None, None) == request,
{
}

/// The identifier is passed on in one piece and again and again the same way,
/// and setting it a second time changes nothing.
pub proof fn law_request_id_is_stable(body: Json, id: Seq<char>, batch_size: Option<usize>)
    requires
        body is Object,
    ensures
        ({
            let once = with_member(body, REQUEST_ID_BODY_KEY@, request_ids(id, batch_size));
            &&& member(once, REQUEST_ID_BODY_KEY@) == Some(request_ids(id, batch_size))
            &&& with_member(once, REQUEST_ID_BODY_KEY@, request_ids(id, batch_size)) == once
        }),
{
    let once = with_member(body, REQUEST_ID_BODY_KEY@, request_ids(id, batch_size));
    assert(once->Object_0.insert(REQUEST_ID_BODY_KEY@, request_ids(id, batch_size))
        =~= once->Object_0);
}

/// No two items of a batch share an identifier.
pub proof fn law_batch_ids_are_unique(id: Seq<char>, i: nat, j: nat)
    requires
        i != j,
    ensures
        item_id(id, i) != item_id(id, j),
{
    if item_id(id, i) == item_id(id, j) {
        let prefix = id + "-"@;
        assert(item_id(id, i).skip(prefix.len() as int) =~= decimal(i));
        assert(item_id(id, j).skip(prefix.len() as int) =~= decimal(j));
        lemma_decimal_injective(i, j);
    }
}

/// Giving a request its meeting place keeps its identifier.
pub proof fn law_bootstrap_keeps_the_request_id(
    body: Json,
    host: Seq<char>,
    port: Option<u16>,
    batch_size: Option<usize>,
    rooms: Seq<u64>,
)
    requires
        body is Object,
    ensures
        member(with_bootstrap(body, host, port, batch_size, rooms), REQUEST_ID_BODY_KEY@) == member(
            body,
            REQUEST_ID_BODY_KEY@,
        ),
{
    reveal_strlit("rid");
    reveal_strlit("bootstrap_host");
    reveal_strlit("bootstrap_port");
    reveal_strlit("bootstrap_room");
    assert(REQUEST_ID_BODY_KEY@.len() != BOOTSTRAP_HOST_KEY@.len());
    assert(REQUEST_ID_BODY_KEY@.len() != BOOTSTRAP_PORT_KEY@.len());
    assert(REQUEST_ID_BODY_KEY@.len() != BOOTSTRAP_ROOM_KEY@.len());
}

/// Both workers of a pair see the identifier of the request, and see the same.
pub proof fn law_both_workers_see_the_request_id(
    body: Json,
    id: Seq<char>,
    host: Seq<char>,
    port: Option<u16>,
    batch_size: Option<usize>,
    rooms: Seq<u64>,
    prefill_rank: Option<usize>,
    decode_rank: Option<usize>,
)
    requires
        body is Object,
    ensures
        ({
            let written = attempt_json(body, Some(id), host, port, batch_size, rooms);
            let ids = Some(request_ids(id, batch_size));
            &&& member(prefill_body(written, prefill_rank), REQUEST_ID_BODY_KEY@) == ids
            &&& member(decode_body(written, prefill_rank, decode_rank), REQUEST_ID_BODY_KEY@) == ids
        }),
{
    let with_id = with_member(body, REQUEST_ID_BODY_KEY@, request_ids(id, batch_size));
    let written = attempt_json(body, Some(id), host, port, batch_size, rooms);
    law_bootstrap_keeps_the_request_id(with_id, host, port, batch_size, rooms);
    reveal_strlit("rid");
    reveal_strlit("data_parallel_rank");
    reveal_strlit("disagg_prefill_dp_rank");
    assert(REQUEST_ID_BODY_KEY@.len() != DATA_PARALLEL_RANK_KEY@.len());
    assert(REQUEST_ID_BODY_KEY@.len() != DISAGG_PREFILL_DP_RANK_KEY@.len());
    law_both_bodies_carry_the_request(written, prefill_rank, decode_rank, REQUEST_ID_BODY_KEY@);
}

/// All three members of the meeting place are there, and a batch has one entry
/// for each of its items in each of them.
pub proof fn law_bootstrap_has_one_entry_for_each_item(
    body: Json,
    host: Seq<char>,
    port: Option<u16>,
    n: usize,
    rooms: Seq<u64>,
)
    requires
        body is Object,
        rooms.len() == n,
    ensures
        ({
            let full = with_bootstrap(body, host, port, Some(n), rooms);
            &&& member(full, BOOTSTRAP_HOST_KEY@) matches Some(Json::Array(hosts)) && hosts.len() == n
            &&& member(full, BOOTSTRAP_PORT_KEY@) matches Some(Json::Array(ports)) && ports.len() == n
            &&& member(full, BOOTSTRAP_ROOM_KEY@) matches Some(Json::Array(list)) && list.len() == n
                && forall|i: int| 0 <= i < n ==> #[trigger] list[i] == integer(rooms[i] as int)
        }),
{
    reveal_strlit("bootstrap_host");
    reveal_strlit("bootstrap_port");
    reveal_strlit("bootstrap_room");
    assert(BOOTSTRAP_HOST_KEY@[10] != BOOTSTRAP_PORT_KEY@[10]);
    assert(BOOTSTRAP_HOST_KEY@[10] != BOOTSTRAP_ROOM_KEY@[10]);
    assert(BOOTSTRAP_PORT_KEY@[10] != BOOTSTRAP_ROOM_KEY@[10]);
}

/// The header name of request identifiers needs no normalising.
proof fn lemma_request_id_header()
    ensures
        crate::headers::is_plain_name(REQUEST_ID_HEADER@),
{
    reveal_strlit("x-request-id");
}

/// The identifiers of the items of a batch.
fn item_ids(id: &str, size: usize) -> (r: Value)
    ensures
        json_of(r) == Json::Array(Seq::new(size as nat, |i: int| Json::Text(item_id(id@, i as nat)))),
{
    let mut ids: Vec<Value> = Vec::new();
    let mut index: usize = 0;
    while index < size
        invariant
            index <= size,
            jsons_of(ids@) == Seq::new(index as nat, |i: int| Json::Text(item_id(id@, i as nat))),
        decreases size - index,
    {
        let ghost before = ids@;
        let suffix = decimal_text(index as u64);
        let item = cat3(id, "-", suffix.as_str());
        ids.push(text(item.as_str()));
        assert(jsons_of(ids@) =~= jsons_of(before).push(Json::Text(item@)));
        index += 1;
        assert(jsons_of(ids@) =~= Seq::new(index as nat, |i: int| Json::Text(item_id(id@, i as nat))));
    }
    array(ids)
}

/// The three lists of a batch: hosts, ports and rooms.
fn bootstrap_lists(host: &str, port: Option<u16>, n: usize, rooms: &Vec<u64>) -> (r: (
    Value,
    Value,
    Value,
))
    requires
        rooms@.len() == n,
    ensures
        json_of(r.0) == Json::Array(Seq::new(n as nat, |i: int| Json::Text(host@))),
        json_of(r.1) == Json::Array(Seq::new(n as nat, |i: int| port_json(port))),
        json_of(r.2) == Json::Array(Seq::new(n as nat, |i: int| integer(rooms@[i] as int))),
{
    let mut host_list: Vec<Value> = Vec::new();
    let mut port_list: Vec<Value> = Vec::new();
    let mut room_list: Vec<Value> = Vec::new();
    let mut k: usize = 0;
    while k < n
        invariant
            k <= n,
            rooms@.len() == n,
            jsons_of(host_list@) == Seq::new(k as nat, |i: int| Json::Text(host@)),
            jsons_of(port_list@) == Seq::new(k as nat, |i: int| port_json(port)),
            jsons_of(room_list@) == Seq::new(k as nat, |i: int| integer(rooms@[i] as int)),
        decreases n - k,
    {
        let ghost hosts_before = host_list@;
        let ghost ports_before = port_list@;
        let ghost rooms_before = room_list@;
        host_list.push(text(host));
        port_list.push(port_value(port));
        room_list.push(number(rooms[k]));
        assert(jsons_of(host_list@) =~= jsons_of(hosts_before).push(Json::Text(host@)));
        assert(jsons_of(port_list@) =~= jsons_of(ports_before).push(port_json(port)));
        assert(jsons_of(room_list@) =~= jsons_of(rooms_before).push(integer(rooms@[k as int] as int)));
        k += 1;
        assert(jsons_of(host_list@) =~= Seq::new(k as nat, |i: int| Json::Text(host@)));
        assert(jsons_of(port_list@) =~= Seq::new(k as nat, |i: int| port_json(port)));
        assert(jsons_of(room_list@) =~= Seq::new(k as nat, |i: int| integer(rooms@[i] as int)));
    }
    (array(host_list), array(port_list), array(room_list))
}

/// Whether a byte may stand in the identifier of a request.
fn is_safe_byte(byte: u8) -> (r: bool)
    ensures
        byte < 128 ==> r == is_safe_char(byte as char),
{
    (97 <= byte && byte <= 122) || (65 <= byte && byte <= 90) || (48 <= byte && byte <= 57) || byte
        == 45 || byte == 95 || byte == 46 || byte == 58
}

} // verus!
