//! Laws on replies.
use vstd::prelude::*;
use serde_json::Value;
use crate::json::{json_of, parsed_bytes, written_text, Json, JsonNumber};
use crate::replies::{DecodeRefusal, ErrorBody, HealthProbe, PrefillAnswer, ProxyAnswer};
use crate::router::PDRouter;
use crate::status::{
    create_error, is_client_error, is_not_worker_fault, is_server_error, is_success,
    received_status, refusal_reply, status_line, ErrorReply, RefusalCodes,
};
use crate::text::{lossy, quoted};

verus! {

/// Whether a reply has these three parts.
pub open spec fn is_reply(r: ErrorReply, status: int, code: Seq<char>, message: Seq<char>) -> bool {
    r.status == status && r.code@ == code && r.message@ == message
}

/// Statuses are classed by their hundreds, and a number that is no status is taken for
/// an internal error.
pub proof fn law_statuses_are_classed(
    status: u16,
    success: bool,
    client: bool,
    server: bool,
    blameless: bool,
    received: u16,
)
    requires
        call_ensures(is_success, (status,), success),
        call_ensures(is_client_error, (status,), client),
        call_ensures(is_server_error, (status,), server),
        call_ensures(is_not_worker_fault, (status,), blameless),
        call_ensures(received_status, (status,), received),
    ensures
        success <==> status / 100 == 2,
        client <==> status / 100 == 4,
        server <==> status / 100 == 5,
        blameless <==> success || client,
        100 <= status <= 999 ==> received == status,
        !(100 <= status <= 999) ==> received == 500,
{
}

/// An error is made of the parts that it is given.
pub proof fn law_errors_are_made_of_their_parts(
    status: u16,
    code: &'static str,
    message: String,
    r: ErrorReply,
)
    requires
        call_ensures(create_error, (status, code, message), r),
    ensures
        is_reply(r, status as int, code@, message@),
{
    assert(r@.status == r.status);
}

/// Whether a status and a code answer a refusal with a status: 400, 404, 500, 502 and
/// 503 are passed on, each with its own code, and any other is an internal error.
pub open spec fn answers_refusal(
    r: ErrorReply,
    status: u16,
    bad_request: Seq<char>,
    not_found: Seq<char>,
    internal_error: Seq<char>,
    unavailable: Seq<char>,
    bad_gateway: Seq<char>,
    other: Seq<char>,
) -> bool {
    &&& status == 400 ==> r.status == 400 && r.code@ == bad_request
    &&& status == 404 ==> r.status == 404 && r.code@ == not_found
    &&& status == 500 ==> r.status == 500 && r.code@ == internal_error
    &&& status == 502 ==> r.status == 502 && r.code@ == bad_gateway
    &&& status == 503 ==> r.status == 503 && r.code@ == unavailable
    &&& status != 400 && status != 404 && status != 500 && status != 502 && status != 503
        ==> r.status == 500 && r.code@ == other
}

/// A refusal is answered by its status with the code for it and the message.
pub proof fn law_refusals_are_answered_by_their_status(
    status: u16,
    codes: RefusalCodes,
    message: String,
    r: ErrorReply,
)
    requires
        call_ensures(refusal_reply, (status, codes, message), r),
    ensures
        answers_refusal(
            r,
            status,
            codes.bad_request@,
            codes.not_found@,
            codes.internal_error@,
            codes.unavailable@,
            codes.bad_gateway@,
            codes.other@,
        ),
        r.message@ == message@,
{
    assert(r@.status == r.status);
}

/// Failures before anything is sent have their replies.
pub proof fn law_failures_before_sending_are_answered(
    selection: &str,
    preparation: String,
    pair: &str,
    r: (ErrorReply, ErrorReply, ErrorReply, ErrorReply),
)
    requires
        call_ensures(PDRouter::handle_server_selection_error, (selection,), r.0),
        call_ensures(PDRouter::handle_serialization_error, (), r.1),
        call_ensures(PDRouter::handle_preparation_error, (preparation,), r.2),
        call_ensures(PDRouter::no_healthy_pair, (pair,), r.3),
    ensures
        is_reply(
            r.0,
            503,
            "server_selection_failed"@,
            "No available servers: "@ + selection@,
        ),
        is_reply(r.1, 500, "serialization_failed"@, "Failed to serialize request"@),
        is_reply(r.2, 500, "pd_request_preparation_failed"@, preparation@),
        is_reply(
            r.3,
            503,
            "no_healthy_worker_pair"@,
            "No healthy worker pair available: "@ + pair@,
        ),
{
    assert(r.0@.status == r.0.status);
    assert(r.1@.status == r.1.status);
    assert(r.2@.status == r.2.status);
    assert(r.3@.status == r.3.status);
}

/// Whether a reply answers a proxied refusal.
pub open spec fn answers_proxy_refusal(r: ErrorReply, status: u16, line: Seq<char>) -> bool {
    &&& answers_refusal(
        r,
        status,
        "server_bad_request"@,
        "server_not_found"@,
        "server_internal_error"@,
        "server_unavailable"@,
        "server_bad_gateway"@,
        "server_error"@,
    )
    &&& r.message@ == "Server returned status: "@ + line
}

/// A proxied request is answered with the body of the worker, or with why there is none.
pub proof fn law_proxied_requests_are_answered(
    answer: ProxyAnswer,
    r: Result<(u16, Vec<u8>), ErrorReply>,
)
    requires
        call_ensures(PDRouter::proxy_to_worker, (answer,), r),
    ensures
        r is Ok <==> answer is Served,
        answer is Served ==> (r->Ok_0).0 == 200 && (r->Ok_0).1 == answer->Served_0,
        answer is Unreadable ==> is_reply(
            r->Err_0,
            500,
            "read_response_body_failed"@,
            "Failed to read response body: "@ + answer->Unreadable_0@,
        ),
        answer is Unreachable ==> is_reply(
            r->Err_0,
            500,
            "proxy_request_failed"@,
            "Failed to proxy request: "@ + answer->Unreachable_0@,
        ),
        answer is Refused ==> answers_proxy_refusal(
            r->Err_0,
            answer->Refused_0,
            status_line(answer->Refused_0),
        ),
{
    if r is Err {
        assert(r->Err_0@.status == r->Err_0.status);
    }
}

/// So is a refusal whose status is shown already.
pub proof fn law_proxied_refusals_are_answered(status: u16, line: &str, r: ErrorReply)
    requires
        call_ensures(PDRouter::proxy_refusal_reply, (status, line), r),
    ensures
        answers_proxy_refusal(r, status, line@),
{
    assert(r@.status == r.status);
}

/// Whether a reply answers a refusal by a prefill worker.
pub open spec fn answers_prefill_refusal(
    r: ErrorReply,
    status: u16,
    line: Seq<char>,
    text: Option<String>,
) -> bool {
    &&& answers_refusal(
        r,
        status,
        "prefill_bad_request"@,
        "prefill_not_found"@,
        "prefill_internal_error"@,
        "prefill_unavailable"@,
        "prefill_bad_gateway"@,
        "prefill_error"@,
    )
    &&& text is Some ==> r.message@ == "Prefill server error ("@ + line + "): "@ + text->0@
    &&& text is None ==> r.message@ == "Prefill server error ("@ + line + "): "@
        + "Unknown prefill error"@
}

/// A refusal by a prefill worker is answered by its status and with its words.
pub proof fn law_prefill_refusals_are_answered(
    status: u16,
    line: &str,
    text: Option<String>,
    r: ErrorReply,
)
    requires
        call_ensures(PDRouter::prefill_refusal_reply, (status, line, text), r),
    ensures
        answers_prefill_refusal(r, status, line@, text),
{
    assert(r@.status == r.status);
}

/// Whether a reply answers a prefill that was refused or that could not be reached.
pub open spec fn answers_failed_prefill(r: ErrorReply, answer: PrefillAnswer) -> bool {
    match answer {
        PrefillAnswer::Unreachable(error) => is_reply(
            r,
            502,
            "prefill_server_error"@,
            "Prefill server error: "@ + error@ + ". This will cause decode timeout."@,
        ),
        PrefillAnswer::Refused { status, text } => answers_prefill_refusal(
            r,
            status,
            status_line(status),
            text,
        ),
        PrefillAnswer::Served { .. } => true,
    }
}

/// A prefill that was served gives its status, and its body where it is asked for; any
/// other gives its reply.
pub proof fn law_prefills_are_gone_by(
    answer: PrefillAnswer,
    return_logprob: bool,
    r: Result<(u16, Option<Vec<u8>>), ErrorReply>,
)
    requires
        call_ensures(PDRouter::process_prefill_response, (answer, return_logprob), r),
    ensures
        r is Ok <==> answer is Served,
        answer is Served ==> (r->Ok_0).0 == answer->Served_status,
        answer is Served && return_logprob ==> (r->Ok_0).1 == answer->body,
        answer is Served && !return_logprob ==> (r->Ok_0).1 is None,
        r is Err ==> answers_failed_prefill(r->Err_0, answer),
{
    if r is Err {
        assert(r->Err_0@.status == r->Err_0.status);
    }
}

/// A prefill that failed is answered so, and one that claims both failure and success
/// as a bad gateway.
pub proof fn law_failed_prefills_are_answered(answer: PrefillAnswer, r: ErrorReply)
    requires
        call_ensures(PDRouter::prefill_failure_reply, (answer,), r),
    ensures
        answers_failed_prefill(r, answer),
        answer is Served ==> is_reply(
            r,
            502,
            "prefill_server_error"@,
            "Prefill reported failure but returned a success response"@,
        ),
{
    assert(r@.status == r.status);
}

/// A decode worker that could not be reached is answered as a bad gateway.
pub proof fn law_unreachable_decode_workers_are_answered(error: &str, r: ErrorReply)
    requires
        call_ensures(PDRouter::decode_unreachable_reply, (error,), r),
    ensures
        is_reply(r, 502, "decode_server_error"@, "Decode server error: "@ + error@),
{
    assert(r@.status == r.status);
}

/// Whether a document is an object with a text under a key.
pub open spec fn says(document: Json, key: Seq<char>) -> bool {
    &&& document is Object
    &&& document->Object_0.dom().contains(key)
    &&& document->Object_0[key] is Text
}

/// Whether a document has a text under `message` inside what it has under `error`.
pub open spec fn says_inside(document: Json) -> bool {
    &&& document is Object
    &&& document->Object_0.dom().contains("error"@)
    &&& says(document->Object_0["error"@], "message"@)
}

/// Whether a text is the message of an error document with a body: the one inside its
/// error, or else the one beside it, or else the body.
pub open spec fn is_message_of(text: Seq<char>, document: Option<Json>, body: Seq<u8>) -> bool {
    if document is Some && says_inside(document->0) {
        text == document->0->Object_0["error"@]->Object_0["message"@]->Text_0
    } else if document is Some && says(document->0, "message"@) {
        text == document->0->Object_0["message"@]->Text_0
    } else {
        text == lossy(body)
    }
}

/// An error document gives its own message, and the body where it has none.
pub proof fn law_error_documents_give_their_message(
    document: Option<Value>,
    body: &[u8],
    r: String,
)
    requires
        call_ensures(PDRouter::decode_error_message, (document, body), r),
    ensures
        is_message_of(
            r@,
            if document is Some {
                Some(json_of(document->0))
            } else {
                None
            },
            body@,
        ),
{
}

/// Whether a reply answers a refusal by a decode worker.
pub open spec fn answers_decode_refusal(r: ErrorReply, status: u16, body: ErrorBody) -> bool {
    match body {
        ErrorBody::Read(bytes) => {
            &&& answers_refusal(
                r,
                status,
                "decode_bad_request"@,
                "decode_not_found"@,
                "decode_internal_error"@,
                "decode_unavailable"@,
                "decode_bad_gateway"@,
                "decode_error"@,
            )
            &&& is_message_of(r.message@, parsed_bytes(bytes@), bytes@)
        },
        ErrorBody::Unreadable(error) => {
            &&& answers_refusal(
                r,
                status,
                "decode_read_failed"@,
                "decode_read_failed"@,
                "decode_read_failed"@,
                "decode_read_failed"@,
                "decode_read_failed"@,
                "decode_read_failed"@,
            )
            &&& r.message@ == "Decode server error: "@ + error@
        },
    }
}

/// Whether a text is the one event that tells of a message and a status.
pub open spec fn is_error_event(event: Seq<char>, message: Json, status: u16) -> bool {
    exists|payload: Json|
        {
            &&& payload is Object
            &&& forall|key: Seq<char>|
                payload->Object_0.dom().contains(key) <==> key == "message"@ || key == "status"@
            &&& payload->Object_0["message"@] == message
            &&& payload->Object_0["status"@] == Json::Number(JsonNumber::Integer(status as int))
            &&& event == "data: {'error': "@ + (if (#[trigger] written_text(payload)) is Some {
                written_text(payload)->0
            } else {
                Seq::empty()
            }) + "}"@
        }
}

/// Whether a document is what the body of a refusal says in a stream.
pub open spec fn is_streamed(message: Json, body: ErrorBody) -> bool {
    match body {
        ErrorBody::Read(bytes) => if parsed_bytes(bytes@) is Some {
            message == parsed_bytes(bytes@)->0
        } else {
            message == Json::Text(lossy(bytes@))
        },
        ErrorBody::Unreadable(error) => message == Json::Text("Decode server error: "@ + error@),
    }
}

proof fn lemma_error_event(message: Json, status: u16)
    ensures
        is_error_event(
            crate::replies::error_event(crate::replies::error_payload(message, status)),
            message,
            status,
        ),
{
    reveal_strlit("message");
    reveal_strlit("status");
    reveal_strlit("");
    assert("message"@.len() != "status"@.len());
    assert(""@ =~= Seq::empty());
    let payload = crate::replies::error_payload(message, status);
    assert forall|key: Seq<char>|
        payload->Object_0.dom().contains(key) <==> key == "message"@ || key == "status"@ by {}
}

/// An error event tells of its message and its status and of nothing else.
pub proof fn law_error_events_tell_message_and_status(message: Value, status: u16, r: String)
    requires
        call_ensures(PDRouter::error_event_text, (message, status), r),
    ensures
        is_error_event(r@, json_of(message), status),
{
    lemma_error_event(json_of(message), status);
}

/// A refusal by a decode worker is answered by its status and message, or where its
/// response is streamed by one event with the status and what the body says.
pub proof fn law_decode_refusals_are_answered(
    status: u16,
    body: ErrorBody,
    is_stream: bool,
    r: DecodeRefusal,
)
    requires
        call_ensures(PDRouter::handle_decode_error_response, (status, body, is_stream), r),
    ensures
        r is Event <==> is_stream,
        r is Reply ==> answers_decode_refusal(r->Reply_0, status, body),
        r is Event ==> exists|message: Json| #[trigger]
            is_streamed(message, body) && is_error_event(r->Event_0@, message, status),
{
    if r is Reply {
        assert(r->Reply_0@.status == r->Reply_0.status);
    } else {
        let message = crate::replies::streamed_message(body);
        lemma_error_event(message, status);
        assert(is_streamed(message, body));
    }
}

/// So is each of the two forms by itself.
pub proof fn law_both_forms_of_decode_refusals(
    status: u16,
    body: ErrorBody,
    reply: ErrorReply,
    event: String,
)
    requires
        call_ensures(PDRouter::decode_refusal_reply, (status, body), reply),
        call_ensures(PDRouter::decode_refusal_event, (status, body), event),
    ensures
        answers_decode_refusal(reply, status, body),
        exists|message: Json| #[trigger]
            is_streamed(message, body) && is_error_event(event@, message, status),
{
    assert(reply@.status == reply.status);
    let message = crate::replies::streamed_message(body);
    lemma_error_event(message, status);
    assert(is_streamed(message, body));
}

/// Whether a probe found a worker well.
pub open spec fn is_well(probe: HealthProbe) -> bool {
    probe is Answered && probe->Answered_0 / 100 == 2
}

/// What is said of a worker that is not well.
pub open spec fn complaint(label: Seq<char>, url: Seq<char>, probe: HealthProbe) -> Seq<char> {
    match probe {
        HealthProbe::Answered(status) => label + url + " returned status "@ + status_line(status),
        HealthProbe::Failed(error) => label + url + " error: "@ + error@,
    }
}

/// A health check passes if and only if both workers are well; otherwise what is said
/// of those that are not is listed, the prefill worker first.
pub proof fn law_health_is_that_of_both_workers(
    prefill_url: &str,
    prefill: &HealthProbe,
    decode_url: &str,
    decode: &HealthProbe,
    r: Result<String, ErrorReply>,
)
    requires
        call_ensures(PDRouter::health_generate, (prefill_url, prefill, decode_url, decode), r),
    ensures
        ({
            let first = quoted(complaint("Prefill "@, prefill_url@, *prefill));
            let second = quoted(complaint("Decode "@, decode_url@, *decode));
            let failed = "Health generate failed: "@;
            &&& r is Ok <==> is_well(*prefill) && is_well(*decode)
            &&& r is Ok ==> r->Ok_0@ == "Health generate passed on selected pair: prefill="@
                + prefill_url@ + ", decode="@ + decode_url@
            &&& r is Err ==> r->Err_0.status == 503 && r->Err_0.code@ == "health_generate_failed"@
            &&& !is_well(*prefill) && is_well(*decode) ==> r->Err_0.message@ == failed + ("["@
                + first + "]"@)
            &&& is_well(*prefill) && !is_well(*decode) ==> r->Err_0.message@ == failed + ("["@
                + second + "]"@)
            &&& !is_well(*prefill) && !is_well(*decode) ==> r->Err_0.message@ == failed + ("["@
                + first + ", "@ + second + "]"@)
        }),
{
    if r is Err {
        assert(r->Err_0@.status == r->Err_0.status);
    }
}

/// The answer to a health check lists the complaints that it is given.
pub proof fn law_health_replies_list_the_complaints(
    prefill_url: &str,
    prefill: Option<String>,
    decode_url: &str,
    decode: Option<String>,
    r: Result<String, ErrorReply>,
)
    requires
        call_ensures(PDRouter::health_reply, (prefill_url, prefill, decode_url, decode), r),
    ensures
        r is Ok <==> prefill is None && decode is None,
        r is Ok ==> r->Ok_0@ == "Health generate passed on selected pair: prefill="@ + prefill_url@
            + ", decode="@ + decode_url@,
        r is Err ==> r->Err_0.status == 503 && r->Err_0.code@ == "health_generate_failed"@,
        prefill is Some && decode is None ==> r->Err_0.message@ == "Health generate failed: "@ + (
        "["@ + prefill->0@ + "]"@),
        prefill is None && decode is Some ==> r->Err_0.message@ == "Health generate failed: "@ + (
        "["@ + decode->0@ + "]"@),
        prefill is Some && decode is Some ==> r->Err_0.message@ == "Health generate failed: "@ + (
        "["@ + prefill->0@ + ", "@ + decode->0@ + "]"@),
{
    if r is Err {
        assert(r->Err_0@.status == r->Err_0.status);
    }
}

/// What is said of a probe that was refused.
pub proof fn law_refused_probes_are_told(label: &str, url: &str, line: &str, r: String)
    requires
        call_ensures(PDRouter::refused_probe, (label, url, line), r),
    ensures
        r@ == label@ + url@ + " returned status "@ + line@,
{
}

} // verus!
