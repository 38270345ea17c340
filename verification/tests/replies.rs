use pd_router::replies::{DecodeRefusal, ErrorBody, HealthProbe, PrefillAnswer, ProxyAnswer};
use pd_router::router::PDRouter;
use pd_router::status::{
    create_error, is_client_error, is_not_worker_fault, is_server_error, is_success,
    received_status, ErrorReply,
};

fn parts(reply: ErrorReply) -> (u16, &'static str, String) {
    (reply.status, reply.code, reply.message)
}

#[test]
fn statuses_are_classed() {
    assert!(is_success(200) && is_success(299));
    assert!(!is_success(199) && !is_success(300));
    assert!(is_client_error(400) && is_client_error(499) && !is_client_error(500));
    assert!(is_server_error(500) && is_server_error(599) && !is_server_error(600));
    assert!(is_not_worker_fault(204) && is_not_worker_fault(429));
    assert!(!is_not_worker_fault(302) && !is_not_worker_fault(503));
    assert_eq!(received_status(418), 418);
    assert_eq!(received_status(99), 500);
    assert_eq!(received_status(1000), 500);
    assert_eq!(
        parts(create_error(404, "code", "message".to_string())),
        (404, "code", "message".to_string())
    );
}

#[test]
fn proxied_refusals_are_answered_by_their_status() {
    for (status, expected, code, line) in [
        (400, 400, "server_bad_request", "400 Bad Request"),
        (404, 404, "server_not_found", "404 Not Found"),
        (500, 500, "server_internal_error", "500 Internal Server Error"),
        (503, 503, "server_unavailable", "503 Service Unavailable"),
        (502, 502, "server_bad_gateway", "502 Bad Gateway"),
        (429, 500, "server_error", "429 Too Many Requests"),
        (302, 500, "server_error", "302 Found"),
        (999, 500, "server_error", "999 <unknown status code>"),
    ] {
        let reply = PDRouter::proxy_to_worker(ProxyAnswer::Refused(status))
            .err()
            .unwrap();
        assert_eq!(
            parts(reply),
            (expected, code, format!("Server returned status: {line}"))
        );
    }
}

#[test]
fn other_proxied_answers_are_answered() {
    assert_eq!(
        PDRouter::proxy_to_worker(ProxyAnswer::Served(vec![1, 2])).ok(),
        Some((200, vec![1, 2]))
    );
    assert_eq!(
        parts(
            PDRouter::proxy_to_worker(ProxyAnswer::Unreadable("eof".to_string()))
                .err()
                .unwrap()
        ),
        (
            500,
            "read_response_body_failed",
            "Failed to read response body: eof".to_string()
        )
    );
    assert_eq!(
        parts(
            PDRouter::proxy_to_worker(ProxyAnswer::Unreachable("refused".to_string()))
                .err()
                .unwrap()
        ),
        (
            500,
            "proxy_request_failed",
            "Failed to proxy request: refused".to_string()
        )
    );
}

#[test]
fn failures_before_dispatch_have_their_replies() {
    assert_eq!(
        parts(PDRouter::handle_server_selection_error("none")),
        (
            503,
            "server_selection_failed",
            "No available servers: none".to_string()
        )
    );
    assert_eq!(
        parts(PDRouter::handle_serialization_error()),
        (
            500,
            "serialization_failed",
            "Failed to serialize request".to_string()
        )
    );
    assert_eq!(
        parts(PDRouter::handle_preparation_error("why".to_string())),
        (500, "pd_request_preparation_failed", "why".to_string())
    );
    assert_eq!(
        parts(PDRouter::decode_unreachable_reply("reset")),
        (
            502,
            "decode_server_error",
            "Decode server error: reset".to_string()
        )
    );
}

#[test]
fn prefill_refusals_are_answered_by_their_status() {
    for (status, expected, code, line) in [
        (400, 400, "prefill_bad_request", "400 Bad Request"),
        (404, 404, "prefill_not_found", "404 Not Found"),
        (500, 500, "prefill_internal_error", "500 Internal Server Error"),
        (503, 503, "prefill_unavailable", "503 Service Unavailable"),
        (502, 502, "prefill_bad_gateway", "502 Bad Gateway"),
        (422, 500, "prefill_error", "422 Unprocessable Entity"),
    ] {
        let answer = |text: Option<&str>| PrefillAnswer::Refused {
            status,
            text: text.map(|text| text.to_string()),
        };
        let reply = PDRouter::process_prefill_response(answer(Some("bad")), true)
            .err()
            .unwrap();
        assert_eq!(
            parts(reply),
            (
                expected,
                code,
                format!("Prefill server error ({line}): bad")
            )
        );
        assert_eq!(
            parts(PDRouter::prefill_failure_reply(answer(None))),
            (
                expected,
                code,
                format!("Prefill server error ({line}): Unknown prefill error")
            )
        );
    }
}

#[test]
fn other_prefill_answers_are_gone_by() {
    let served = || PrefillAnswer::Served {
        status: 201,
        body: Some(vec![7]),
    };
    assert_eq!(
        PDRouter::process_prefill_response(served(), true).ok(),
        Some((201, Some(vec![7])))
    );
    assert_eq!(
        PDRouter::process_prefill_response(served(), false).ok(),
        Some((201, None))
    );
    assert_eq!(
        parts(PDRouter::prefill_failure_reply(PrefillAnswer::Unreachable(
            "reset".to_string()
        ))),
        (
            502,
            "prefill_server_error",
            "Prefill server error: reset. This will cause decode timeout.".to_string()
        )
    );
    assert_eq!(
        parts(PDRouter::prefill_failure_reply(served())),
        (
            502,
            "prefill_server_error",
            "Prefill reported failure but returned a success response".to_string()
        )
    );
}

fn read(body: &str) -> ErrorBody {
    ErrorBody::Read(body.as_bytes().to_vec())
}

#[test]
fn decode_refusals_are_answered_by_their_status() {
    for (status, expected, code) in [
        (400, 400, "decode_bad_request"),
        (404, 404, "decode_not_found"),
        (500, 500, "decode_internal_error"),
        (503, 503, "decode_unavailable"),
        (502, 502, "decode_bad_gateway"),
        (429, 500, "decode_error"),
    ] {
        assert_eq!(
            parts(PDRouter::decode_refusal_reply(status, read("plain"))),
            (expected, code, "plain".to_string())
        );
        assert_eq!(
            parts(PDRouter::decode_refusal_reply(
                status,
                ErrorBody::Unreadable("eof".to_string())
            )),
            (
                expected,
                "decode_read_failed",
                "Decode server error: eof".to_string()
            )
        );
    }
}

#[test]
fn the_message_of_an_error_document_is_found() {
    for (body, message) in [
        (r#"{"error": {"message": "inner"}, "message": "outer"}"#, "inner"),
        (r#"{"error": {"message": 3}, "message": "outer"}"#, "outer"),
        (r#"{"error": "x", "message": "outer"}"#, "outer"),
        (r#"{"message": null}"#, r#"{"message": null}"#),
        (r#"["message"]"#, r#"["message"]"#),
        ("not json", "not json"),
        ("", ""),
    ] {
        assert_eq!(
            PDRouter::decode_refusal_reply(500, read(body)).message,
            message
        );
    }
    let malformed = ErrorBody::Read(vec![97, 255, 98]);
    assert_eq!(
        PDRouter::decode_refusal_reply(500, malformed).message,
        "a\u{fffd}b"
    );
    assert_eq!(PDRouter::decode_error_message(None, b"raw"), "raw");
}

#[test]
fn a_streamed_refusal_is_one_event() {
    assert_eq!(
        PDRouter::decode_refusal_event(503, read(r#"{"a": [1]}"#)),
        r#"data: {'error': {"message":{"a":[1]},"status":503}}"#
    );
    assert_eq!(
        PDRouter::decode_refusal_event(400, read("no \"json\"")),
        r#"data: {'error': {"message":"no \"json\"","status":400}}"#
    );
    assert_eq!(
        PDRouter::decode_refusal_event(502, ErrorBody::Unreadable("eof".to_string())),
        r#"data: {'error': {"message":"Decode server error: eof","status":502}}"#
    );
}

#[test]
fn a_health_check_needs_both_workers() {
    let good = HealthProbe::Answered(200);
    let refused = HealthProbe::Answered(503);
    let failed = HealthProbe::Failed("no \"route\"".to_string());
    assert_eq!(
        PDRouter::health_generate("http://p", &good, "http://d", &good).ok(),
        Some(
            "Health generate passed on selected pair: prefill=http://p, decode=http://d".to_string()
        )
    );
    for (prefill, decode, list) in [
        (
            &refused,
            &good,
            r#"["Prefill http://p returned status 503 Service Unavailable"]"#,
        ),
        (
            &good,
            &failed,
            r#"["Decode http://d error: no \"route\""]"#,
        ),
        (
            &failed,
            &refused,
            r#"["Prefill http://p error: no \"route\"", "Decode http://d returned status 503 Service Unavailable"]"#,
        ),
    ] {
        let reply = PDRouter::health_generate("http://p", prefill, "http://d", decode)
            .err()
            .unwrap();
        assert_eq!(
            parts(reply),
            (
                503,
                "health_generate_failed",
                format!("Health generate failed: {list}")
            )
        );
    }
    assert_eq!(
        parts(PDRouter::no_healthy_pair("none")),
        (
            503,
            "no_healthy_worker_pair",
            "No healthy worker pair available: none".to_string()
        )
    );
}

#[test]
fn a_refusal_by_a_decode_worker_takes_the_form_of_its_response() {
    match PDRouter::handle_decode_error_response(503, read("busy"), true) {
        DecodeRefusal::Event(event) => assert_eq!(
            event,
            r#"data: {'error': {"message":"busy","status":503}}"#
        ),
        other => panic!("{other:?}"),
    }
    match PDRouter::handle_decode_error_response(503, read("busy"), false) {
        DecodeRefusal::Reply(reply) => assert_eq!(
            parts(reply),
            (503, "decode_unavailable", "busy".to_string())
        ),
        other => panic!("{other:?}"),
    }
}

#[test]
fn a_response_that_is_not_streamed_is_read_or_refused() {
    let prefill = Some(br#"{"meta_info":{"input_token_logprobs":[1]}}"#.to_vec());
    let decode = Some(br#"{"meta_info":{"input_token_logprobs":[2]}}"#.to_vec());
    assert_eq!(
        PDRouter::process_non_streaming_response(201, true, &prefill, decode.clone()).ok(),
        Some((
            201,
            br#"{"meta_info":{"input_token_logprobs":[1,2]}}"#.to_vec()
        ))
    );
    assert_eq!(
        PDRouter::process_non_streaming_response(200, false, &prefill, decode.clone()).ok(),
        decode.map(|bytes| (200, bytes))
    );
    assert_eq!(
        parts(
            PDRouter::process_non_streaming_response(200, true, &prefill, None)
                .err()
                .unwrap()
        ),
        (
            500,
            "read_response_failed",
            "Failed to read response".to_string()
        )
    );
}

#[test]
fn shown_parts_are_put_into_replies() {
    assert_eq!(
        parts(PDRouter::proxy_refusal_reply(404, "gone")),
        (
            404,
            "server_not_found",
            "Server returned status: gone".to_string()
        )
    );
    assert_eq!(
        PDRouter::prefill_refusal_reply(400, "line", None).message,
        "Prefill server error (line): Unknown prefill error"
    );
    assert_eq!(
        PDRouter::refused_probe("Prefill ", "u", "line"),
        "Prefill u returned status line"
    );
    assert_eq!(
        PDRouter::health_reply("p", Some("A".to_string()), "d", Some("B".to_string()))
            .err()
            .unwrap()
            .message,
        "Health generate failed: [A, B]"
    );
    assert_eq!(
        PDRouter::timed_out_reply("w", "1.5").message,
        "Timed out after 1.5s waiting for a Prefill room on worker w"
    );
}
