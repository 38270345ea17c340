//! Replies to what the workers of a pair answer.
use vstd::prelude::*;
use serde_json::Value;
use crate::context::string_text;
use crate::json::{
    inner_member, integer, json_of, member, member_ref, number, object, parse_bytes, parsed_bytes,
    text, write_text, written_text, Json,
};
use crate::logprobs::merged_body;
use crate::router::PDRouter;
use crate::status::{
    create_error, is_status, is_success, refusal_reply, refusal_status, status_line,
    write_status, ErrorReply, ErrorText, RefusalCodes, BAD_GATEWAY, INTERNAL_SERVER_ERROR, OK,
    SERVICE_UNAVAILABLE,
};
use crate::text::{cat2, cat3, cat4, cat5, lossy, quote, quoted, read_lossy};

verus! {

/// The reply where no pair of workers can be chosen.
pub open spec fn selection_failed(error: Seq<char>) -> ErrorText {
    ErrorText {
        status: SERVICE_UNAVAILABLE,
        code: "server_selection_failed"@,
        message: "No available servers: "@ + error,
    }
}

/// The reply where a request cannot be written for the workers.
pub open spec fn serialization_failed() -> ErrorText {
    ErrorText {
        status: INTERNAL_SERVER_ERROR,
        code: "serialization_failed"@,
        message: "Failed to serialize request"@,
    }
}

/// The reply where the two requests of a pair cannot be made ready.
pub open spec fn preparation_failed(error: Seq<char>) -> ErrorText {
    ErrorText {
        status: INTERNAL_SERVER_ERROR,
        code: "pd_request_preparation_failed"@,
        message: error,
    }
}

/// The reply to a refusal by the worker that a request was proxied to, with the
/// status also given as it is shown.
pub open spec fn proxy_refusal(status: u16, line: Seq<char>) -> ErrorText {
    ErrorText {
        status: refusal_status(status),
        code: if status == 400 {
            "server_bad_request"@
        } else if status == 404 {
            "server_not_found"@
        } else if status == 500 {
            "server_internal_error"@
        } else if status == 503 {
            "server_unavailable"@
        } else if status == 502 {
            "server_bad_gateway"@
        } else {
            "server_error"@
        },
        message: "Server returned status: "@ + line,
    }
}

/// The reply to a refusal by a prefill worker, with the status also given as it is shown.
pub open spec fn prefill_refusal(status: u16, line: Seq<char>, body: Option<Seq<char>>) -> ErrorText {
    ErrorText {
        status: refusal_status(status),
        code: if status == 400 {
            "prefill_bad_request"@
        } else if status == 404 {
            "prefill_not_found"@
        } else if status == 500 {
            "prefill_internal_error"@
        } else if status == 503 {
            "prefill_unavailable"@
        } else if status == 502 {
            "prefill_bad_gateway"@
        } else {
            "prefill_error"@
        },
        message: "Prefill server error ("@ + line + "): "@ + (match body {
            Some(text) => text,
            None => "Unknown prefill error"@,
        }),
    }
}

/// The reply where a prefill worker could not be reached.
pub open spec fn prefill_unreachable(error: Seq<char>) -> ErrorText {
    ErrorText {
        status: BAD_GATEWAY,
        code: "prefill_server_error"@,
        message: "Prefill server error: "@ + error + ". This will cause decode timeout."@,
    }
}

/// The reply where a decode worker could not be reached.
pub open spec fn decode_unreachable(error: Seq<char>) -> ErrorText {
    ErrorText {
        status: BAD_GATEWAY,
        code: "decode_server_error"@,
        message: "Decode server error: "@ + error,
    }
}

/// The code of a reply to a refusal by a decode worker.
pub open spec fn decode_refusal_code(status: u16) -> Seq<char> {
    if status == 400 {
        "decode_bad_request"@
    } else if status == 404 {
        "decode_not_found"@
    } else if status == 500 {
        "decode_internal_error"@
    } else if status == 503 {
        "decode_unavailable"@
    } else if status == 502 {
        "decode_bad_gateway"@
    } else {
        "decode_error"@
    }
}

/// The text of a document that is a string.
pub open spec fn json_text(json: Option<Json>) -> Option<Seq<char>> {
    match json {
        Some(Json::Text(text)) => Some(text),
        _ => None,
    }
}

/// The message that an error document reports: the one inside its error, or
/// else the one beside it.
pub open spec fn reported_message(json: Json) -> Option<Seq<char>> {
    match json_text(inner_member(json, "error"@, "message"@)) {
        Some(text) => Some(text),
        None => json_text(member(json, "message"@)),
    }
}

/// The message of an error body: the one that it reports as a document, or
/// else the body itself.
pub open spec fn error_message(body: Seq<u8>) -> Seq<char> {
    match parsed_bytes(body) {
        Some(json) => match reported_message(json) {
            Some(text) => text,
            None => lossy(body),
        },
        None => lossy(body),
    }
}

/// What could be read of an error body: its bytes, or why it could not be read.
#[derive(Debug)]
pub enum ErrorBody {
    Read(Vec<u8>),
    Unreadable(String),
}

/// The answer to a refusal by a decode worker.
#[derive(Debug)]
pub enum DecodeRefusal {
    /// The one event of a stream.
    Event(String),
    /// A reply.
    Reply(ErrorReply),
}

/// What a body reports in a stream: the document that it is, or else its text.
pub open spec fn streamed_message(body: ErrorBody) -> Json {
    match body {
        ErrorBody::Read(bytes) => match parsed_bytes(bytes@) {
            Some(json) => json,
            None => Json::Text(lossy(bytes@)),
        },
        ErrorBody::Unreadable(error) => Json::Text("Decode server error: "@ + error@),
    }
}

/// A message and a status as one document.
pub open spec fn error_payload(message: Json, status: u16) -> Json {
    Json::Object(
        Map::<Seq<char>, Json>::empty().insert("message"@, message).insert(
            "status"@,
            integer(status as int),
        ),
    )
}

/// An error as an event of a stream.
pub open spec fn error_event(payload: Json) -> Seq<char> {
    "data: {'error': "@ + (match written_text(payload) {
        Some(text) => text,
        None => ""@,
    }) + "}"@
}

/// The reply to a refusal by a decode worker whose response is not streamed.
pub open spec fn decode_refusal(status: u16, body: ErrorBody) -> ErrorText {
    match body {
        ErrorBody::Read(bytes) => ErrorText {
            status: refusal_status(status),
            code: decode_refusal_code(status),
            message: error_message(bytes@),
        },
        ErrorBody::Unreadable(error) => ErrorText {
            status: refusal_status(status),
            code: "decode_read_failed"@,
            message: "Decode server error: "@ + error@,
        },
    }
}

/// What the worker that a request was proxied to answered.
#[derive(Debug)]
pub enum ProxyAnswer {
    /// The worker could not be reached, for this reason.
    Unreachable(String),
    /// The worker refused, with this status.
    Refused(u16),
    /// The worker served the request, but its body could not be read, for this reason.
    Unreadable(String),
    /// The worker served the request, with this body.
    Served(Vec<u8>),
}

impl ProxyAnswer {
    /// Whether a refusal has the status of one.
    pub open spec fn wf(&self) -> bool {
        match self {
            ProxyAnswer::Refused(status) => is_status(*status) && !is_success(*status),
            _ => true,
        }
    }
}

/// What a prefill worker answered.
#[derive(Debug)]
pub enum PrefillAnswer {
    /// The worker could not be reached, for this reason.
    Unreachable(String),
    /// The worker refused, with this text where it could be read.
    Refused { status: u16, text: Option<String> },
    /// The worker served the request, with this body where it could be read.
    Served { status: u16, body: Option<Vec<u8>> },
}

impl PrefillAnswer {
    /// Whether the answer is filed under what its status says.
    pub open spec fn wf(&self) -> bool {
        match self {
            PrefillAnswer::Unreachable(_) => true,
            PrefillAnswer::Refused { status, text } => is_status(*status) && !is_success(*status),
            PrefillAnswer::Served { status, body } => is_success(*status),
        }
    }
}

/// The reply to a prefill that failed.
pub open spec fn prefill_failure(answer: PrefillAnswer) -> ErrorText {
    match answer {
        PrefillAnswer::Unreachable(error) => prefill_unreachable(error@),
        PrefillAnswer::Refused { status, text } => prefill_refusal(
            status,
            status_line(status),
            match text {
                Some(text) => Some(text@),
                None => None,
            },
        ),
        PrefillAnswer::Served { status, body } => ErrorText {
            status: BAD_GATEWAY,
            code: "prefill_server_error"@,
            message: "Prefill reported failure but returned a success response"@,
        },
    }
}

/// What probing the health of a worker gave.
#[derive(Debug)]
pub enum HealthProbe {
    Answered(u16),
    Failed(String),
}

impl HealthProbe {
    /// Whether an answer has a status.
    pub open spec fn wf(&self) -> bool {
        match self {
            HealthProbe::Answered(status) => is_status(*status),
            HealthProbe::Failed(_) => true,
        }
    }
}

/// The complaint that a probe gives rise to, if any.
pub open spec fn probe_complaint(label: Seq<char>, url: Seq<char>, probe: HealthProbe) -> Option<
    Seq<char>,
> {
    match probe {
        HealthProbe::Answered(status) => if is_success(status) {
            None
        } else {
            Some(label + url + " returned status "@ + status_line(status))
        },
        HealthProbe::Failed(error) => Some(label + url + " error: "@ + error@),
    }
}

/// A complaint as it is shown in a list.
pub open spec fn shown_complaint(complaint: Option<Seq<char>>) -> Option<Seq<char>> {
    match complaint {
        Some(text) => Some(quoted(text)),
        None => None,
    }
}

/// A list of complaints, each given as it is shown.
pub open spec fn complaint_list(prefill: Option<Seq<char>>, decode: Option<Seq<char>>) -> Seq<char> {
    match (prefill, decode) {
        (Some(first), Some(second)) => "["@ + first + ", "@ + second + "]"@,
        (Some(only), None) => "["@ + only + "]"@,
        (None, Some(only)) => "["@ + only + "]"@,
        (None, None) => "[]"@,
    }
}

/// Whether an answer to a health check is the right one for the complaints about
/// the two workers: a text where there are none, and else a reply that lists them.
pub open spec fn health_answer_is(
    r: Result<String, ErrorReply>,
    prefill_url: Seq<char>,
    prefill: Option<Seq<char>>,
    decode_url: Seq<char>,
    decode: Option<Seq<char>>,
) -> bool {
    if prefill is None && decode is None {
        r is Ok && r->Ok_0@ == "Health generate passed on selected pair: prefill="@ + prefill_url
            + ", decode="@ + decode_url
    } else {
        r is Err && r->Err_0@ == (ErrorText {
            status: SERVICE_UNAVAILABLE,
            code: "health_generate_failed"@,
            message: "Health generate failed: "@ + complaint_list(prefill, decode),
        })
    }
}

/// The complaint about a worker as it is shown, if its probe gives rise to one.
fn quoted_complaint(label: &str, url: &str, probe: &HealthProbe) -> (r: Option<String>)
    requires
        probe.wf(),
    ensures
        string_text(r) == shown_complaint(probe_complaint(label@, url@, *probe)),
{
    let complaint = match probe {
        HealthProbe::Answered(status) => if is_success(*status) {
            return None;
        } else {
            let line = write_status(*status);
            PDRouter::refused_probe(label, url, line.as_str())
        },
        HealthProbe::Failed(error) => cat4(label, url, " error: ", error.as_str()),
    };
    Some(quote(complaint.as_str()))
}

/// Reads the message that a document reports.
fn read_message(json: &Value) -> (r: Option<String>)
    ensures
        (match r {
            Some(text) => Some(text@),
            None => None,
        }) == reported_message(json_of(*json)),
{
    match member_ref(json, "error") {
        Some(error) => match member_ref(error, "message") {
            Some(message) => match message.as_str() {
                Some(text) => {
                    return Some(text.to_string());
                },
                None => {},
            },
            None => {},
        },
        None => {},
    }
    match member_ref(json, "message") {
        Some(message) => match message.as_str() {
            Some(text) => Some(text.to_string()),
            None => None,
        },
        None => None,
    }
}

impl PDRouter {
    /// The reply where no pair of workers can be chosen.
    pub fn handle_server_selection_error(error: &str) -> (r: ErrorReply)
        ensures
            r@ == selection_failed(error@),
    {
        create_error(
            SERVICE_UNAVAILABLE,
            "server_selection_failed",
            cat2("No available servers: ", error),
        )
    }

    /// The reply where a request cannot be written for the workers.
    pub fn handle_serialization_error() -> (r: ErrorReply)
        ensures
            r@ == serialization_failed(),
    {
        create_error(
            INTERNAL_SERVER_ERROR,
            "serialization_failed",
            "Failed to serialize request".to_string(),
        )
    }

    /// The reply where the two requests of a pair cannot be made ready.
    pub fn handle_preparation_error(error: String) -> (r: ErrorReply)
        ensures
            r@ == preparation_failed(error@),
    {
        create_error(INTERNAL_SERVER_ERROR, "pd_request_preparation_failed", error)
    }

    /// The reply to a refusal by the worker that a request was proxied to.
    pub fn proxy_refusal_reply(status: u16, line: &str) -> (r: ErrorReply)
        ensures
            r@ == proxy_refusal(status, line@),
    {
        refusal_reply(
            status,
            RefusalCodes {
                bad_request: "server_bad_request",
                not_found: "server_not_found",
                internal_error: "server_internal_error",
                unavailable: "server_unavailable",
                bad_gateway: "server_bad_gateway",
                other: "server_error",
            },
            cat2("Server returned status: ", line),
        )
    }

    /// Goes by what the worker that a request was proxied to answered: its body,
    /// served with success whatever the status of success was, or the reply
    /// where it failed.
    pub fn proxy_to_worker(answer: ProxyAnswer) -> (r: Result<(u16, Vec<u8>), ErrorReply>)
        requires
            answer.wf(),
        ensures
            match answer {
                ProxyAnswer::Served(body) => r is Ok && r->Ok_0 == (OK, body),
                ProxyAnswer::Unreadable(error) => r is Err && r->Err_0@ == (ErrorText {
                    status: INTERNAL_SERVER_ERROR,
                    code: "read_response_body_failed"@,
                    message: "Failed to read response body: "@ + error@,
                }),
                ProxyAnswer::Refused(status) => r is Err && r->Err_0@ == proxy_refusal(
                    status,
                    status_line(status),
                ),
                ProxyAnswer::Unreachable(error) => r is Err && r->Err_0@ == (ErrorText {
                    status: INTERNAL_SERVER_ERROR,
                    code: "proxy_request_failed"@,
                    message: "Failed to proxy request: "@ + error@,
                }),
            },
    {
        match answer {
            ProxyAnswer::Served(body) => Ok((OK, body)),
            ProxyAnswer::Unreadable(error) => Err(
                create_error(
                    INTERNAL_SERVER_ERROR,
                    "read_response_body_failed",
                    cat2("Failed to read response body: ", error.as_str()),
                ),
            ),
            ProxyAnswer::Refused(status) => {
                let line = write_status(status);
                Err(Self::proxy_refusal_reply(status, line.as_str()))
            },
            ProxyAnswer::Unreachable(error) => Err(
                create_error(
                    INTERNAL_SERVER_ERROR,
                    "proxy_request_failed",
                    cat2("Failed to proxy request: ", error.as_str()),
                ),
            ),
        }
    }

    /// The reply where a decode worker cannot be reached.
    pub fn decode_unreachable_reply(error: &str) -> (r: ErrorReply)
        ensures
            r@ == decode_unreachable(error@),
    {
        create_error(BAD_GATEWAY, "decode_server_error", cat2("Decode server error: ", error))
    }

    /// The reply to a refusal by a prefill worker.
    pub fn prefill_refusal_reply(status: u16, line: &str, text: Option<String>) -> (r: ErrorReply)
        ensures
            r@ == prefill_refusal(
                status,
                line@,
                match text {
                    Some(text) => Some(text@),
                    None => None,
                },
            ),
    {
        let shown = match text {
            Some(text) => text,
            None => "Unknown prefill error".to_string(),
        };
        refusal_reply(
            status,
            RefusalCodes {
                bad_request: "prefill_bad_request",
                not_found: "prefill_not_found",
                internal_error: "prefill_internal_error",
                unavailable: "prefill_unavailable",
                bad_gateway: "prefill_bad_gateway",
                other: "prefill_error",
            },
            cat4("Prefill server error (", line, "): ", shown.as_str()),
        )
    }

    /// Goes by what a prefill worker answered: its status, and its body where
    /// the log-probabilities in it are asked for, or the reply where it failed.
    pub fn process_prefill_response(answer: PrefillAnswer, return_logprob: bool) -> (r: Result<
        (u16, Option<Vec<u8>>),
        ErrorReply,
    >)
        requires
            answer.wf(),
        ensures
            match answer {
                PrefillAnswer::Served { status, body } => r is Ok && r->Ok_0 == (
                    status,
                    if return_logprob {
                        body
                    } else {
                        None
                    },
                ),
                _ => r is Err && r->Err_0@ == prefill_failure(answer),
            },
    {
        match answer {
            PrefillAnswer::Unreachable(error) => Err(
                create_error(
                    BAD_GATEWAY,
                    "prefill_server_error",
                    cat3(
                        "Prefill server error: ",
                        error.as_str(),
                        ". This will cause decode timeout.",
                    ),
                ),
            ),
            PrefillAnswer::Refused { status, text } => {
                let line = write_status(status);
                Err(Self::prefill_refusal_reply(status, line.as_str(), text))
            },
            PrefillAnswer::Served { status, body } => Ok(
                (
                    status,
                    if return_logprob {
                        body
                    } else {
                        None
                    },
                ),
            ),
        }
    }

    /// The reply to a prefill that failed. One that claims failure and success
    /// at once is answered as a bad gateway.
    pub fn prefill_failure_reply(answer: PrefillAnswer) -> (r: ErrorReply)
        requires
            answer.wf(),
        ensures
            r@ == prefill_failure(answer),
    {
        match Self::process_prefill_response(answer, false) {
            Err(reply) => reply,
            Ok(_) => create_error(
                BAD_GATEWAY,
                "prefill_server_error",
                "Prefill reported failure but returned a success response".to_string(),
            ),
        }
    }

    /// The message of an error document, or the body where it reports none.
    pub fn decode_error_message(json: Option<Value>, body: &[u8]) -> (r: String)
        ensures
            r@ == match json {
                Some(json) => match reported_message(json_of(json)) {
                    Some(text) => text,
                    None => lossy(body@),
                },
                None => lossy(body@),
            },
    {
        match json {
            Some(json) => match read_message(&json) {
                Some(text) => text,
                None => read_lossy(body),
            },
            None => read_lossy(body),
        }
    }

    /// The reply to a refusal by a decode worker whose response is not streamed.
    pub fn decode_refusal_reply(status: u16, body: ErrorBody) -> (r: ErrorReply)
        ensures
            r@ == decode_refusal(status, body),
    {
        match body {
            ErrorBody::Read(bytes) => {
                let json = parse_bytes(bytes.as_slice());
                let message = Self::decode_error_message(json, bytes.as_slice());
                refusal_reply(
                    status,
                    RefusalCodes {
                        bad_request: "decode_bad_request",
                        not_found: "decode_not_found",
                        internal_error: "decode_internal_error",
                        unavailable: "decode_unavailable",
                        bad_gateway: "decode_bad_gateway",
                        other: "decode_error",
                    },
                    message,
                )
            },
            ErrorBody::Unreadable(error) => refusal_reply(
                status,
                RefusalCodes {
                    bad_request: "decode_read_failed",
                    not_found: "decode_read_failed",
                    internal_error: "decode_read_failed",
                    unavailable: "decode_read_failed",
                    bad_gateway: "decode_read_failed",
                    other: "decode_read_failed",
                },
                cat2("Decode server error: ", error.as_str()),
            ),
        }
    }

    /// A message and a status as the one event of an error stream.
    pub fn error_event_text(message: Value, status: u16) -> (r: String)
        ensures
            r@ == error_event(error_payload(json_of(message), status)),
    {
        let mut members = serde_json::Map::new();
        members.insert("message".to_string(), message);
        members.insert("status".to_string(), number(status as u64));
        let payload = object(members);
        let written = match write_text(&payload) {
            Some(text) => text,
            None => "".to_string(),
        };
        cat3("data: {'error': ", written.as_str(), "}")
    }

    /// The one event of the stream that answers a refusal by a decode worker
    /// whose response is streamed.
    pub fn decode_refusal_event(status: u16, body: ErrorBody) -> (r: String)
        ensures
            r@ == error_event(error_payload(streamed_message(body), status)),
    {
        let message = match body {
            ErrorBody::Read(bytes) => match parse_bytes(bytes.as_slice()) {
                Some(json) => json,
                None => {
                    let shown = read_lossy(bytes.as_slice());
                    text(shown.as_str())
                },
            },
            ErrorBody::Unreadable(error) => {
                let shown = cat2("Decode server error: ", error.as_str());
                text(shown.as_str())
            },
        };
        Self::error_event_text(message, status)
    }

    /// The answer to a refusal by a decode worker: one event where its response
    /// is streamed, and else a reply.
    pub fn handle_decode_error_response(status: u16, body: ErrorBody, is_stream: bool) -> (r:
        DecodeRefusal)
        ensures
            is_stream ==> r is Event && r->Event_0@ == error_event(
                error_payload(streamed_message(body), status),
            ),
            !is_stream ==> r is Reply && r->Reply_0@ == decode_refusal(status, body),
    {
        if is_stream {
            DecodeRefusal::Event(Self::decode_refusal_event(status, body))
        } else {
            DecodeRefusal::Reply(Self::decode_refusal_reply(status, body))
        }
    }

    /// The response that is not streamed: the body of the decode worker, with
    /// the log-probabilities of the prefill put before its own where they are
    /// asked for and can be, or a reply where that body cannot be read.
    pub fn process_non_streaming_response(
        status: u16,
        return_logprob: bool,
        prefill_body: &Option<Vec<u8>>,
        decode_body: Option<Vec<u8>>,
    ) -> (r: Result<(u16, Vec<u8>), ErrorReply>)
        ensures
            match decode_body {
                Some(bytes) => {
                    &&& r is Ok
                    &&& r->Ok_0.0 == status
                    &&& r->Ok_0.1@ == if return_logprob && prefill_body is Some {
                        merged_body(prefill_body->0@, bytes@)
                    } else {
                        bytes@
                    }
                },
                None => r is Err && r->Err_0@ == (ErrorText {
                    status: INTERNAL_SERVER_ERROR,
                    code: "read_response_failed"@,
                    message: "Failed to read response"@,
                }),
            },
    {
        match decode_body {
            Some(bytes) => Ok(
                (status, Self::non_streaming_body(return_logprob, prefill_body, bytes)),
            ),
            None => Err(
                create_error(
                    INTERNAL_SERVER_ERROR,
                    "read_response_failed",
                    "Failed to read response".to_string(),
                ),
            ),
        }
    }

    /// The reply where no pair can be chosen to probe.
    pub fn no_healthy_pair(error: &str) -> (r: ErrorReply)
        ensures
            r@ == (ErrorText {
                status: SERVICE_UNAVAILABLE,
                code: "no_healthy_worker_pair"@,
                message: "No healthy worker pair available: "@ + error@,
            }),
    {
        create_error(
            SERVICE_UNAVAILABLE,
            "no_healthy_worker_pair",
            cat2("No healthy worker pair available: ", error),
        )
    }

    /// The complaint about a worker that answered a probe without success.
    pub fn refused_probe(label: &str, url: &str, line: &str) -> (r: String)
        ensures
            r@ == label@ + url@ + " returned status "@ + line@,
    {
        cat4(label, url, " returned status ", line)
    }

    /// The answer to a health check, from the complaints about the two workers
    /// as they are shown.
    pub fn health_reply(
        prefill_url: &str,
        prefill: Option<String>,
        decode_url: &str,
        decode: Option<String>,
    ) -> (r: Result<String, ErrorReply>)
        ensures
            health_answer_is(
                r,
                prefill_url@,
                string_text(prefill),
                decode_url@,
                string_text(decode),
            ),
    {
        let shown = match (prefill, decode) {
            (Some(first), Some(second)) => cat5("[", first.as_str(), ", ", second.as_str(), "]"),
            (Some(only), None) => cat3("[", only.as_str(), "]"),
            (None, Some(only)) => cat3("[", only.as_str(), "]"),
            (None, None) => {
                return Ok(
                    cat4(
                        "Health generate passed on selected pair: prefill=",
                        prefill_url,
                        ", decode=",
                        decode_url,
                    ),
                );
            },
        };
        Err(
            create_error(
                SERVICE_UNAVAILABLE,
                "health_generate_failed",
                cat2("Health generate failed: ", shown.as_str()),
            ),
        )
    }

    /// The answer to a health check: a text where both workers of the pair
    /// passed, or a reply that lists what is wrong, the prefill worker first.
    pub fn health_generate(
        prefill_url: &str,
        prefill: &HealthProbe,
        decode_url: &str,
        decode: &HealthProbe,
    ) -> (r: Result<String, ErrorReply>)
        requires
            prefill.wf(),
            decode.wf(),
        ensures
            health_answer_is(
                r,
                prefill_url@,
                shown_complaint(probe_complaint("Prefill "@, prefill_url@, *prefill)),
                decode_url@,
                shown_complaint(probe_complaint("Decode "@, decode_url@, *decode)),
            ),
    {
        let first = quoted_complaint("Prefill ", prefill_url, prefill);
        let second = quoted_complaint("Decode ", decode_url, decode);
        Self::health_reply(prefill_url, first, decode_url, second)
    }
}

/// A health check passes if and only if both workers answered with success.
pub proof fn law_health_needs_both_workers(
    prefill_url: Seq<char>,
    prefill: HealthProbe,
    decode_url: Seq<char>,
    decode: HealthProbe,
)
    ensures
        (probe_complaint("Prefill "@, prefill_url, prefill) is None && probe_complaint(
            "Decode "@,
            decode_url,
            decode,
        ) is None) <==> ((prefill matches HealthProbe::Answered(a) && is_success(a)) && (
        decode matches HealthProbe::Answered(b) && is_success(b))),
{
}

} // verus!
