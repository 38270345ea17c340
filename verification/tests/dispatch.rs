use axum::http::HeaderMap;
use pd_router::admission::PrefillAdmissionError;
use pd_router::attempt::{
    holds_decode_load, holds_prefill_load, holds_rooms, Attempt, Stage,
};
use pd_router::dispatch::{
    are_outcomes_recorded, attempt_report, response_shape, router_report, BreakerOutcomes,
    DispatchStep, DualDispatch, Next, ResponseShape, RouterReport, SendOutcome,
};
use pd_router::stream::{StreamPump, EVENT_STREAM};
use pd_router::worker::{Worker, WorkerType};
use serde_json::Value;

const SERVED: SendOutcome = SendOutcome::Answered(200);
const QUIET: BreakerOutcomes = BreakerOutcomes {
    prefill: None,
    decode: None,
};

fn told(prefill: Option<bool>, decode: Option<bool>) -> BreakerOutcomes {
    BreakerOutcomes { prefill, decode }
}

/// The last step when the decode worker answers after the prefill worker.
fn prefill_first(is_stream: bool, prefill: SendOutcome, decode: SendOutcome) -> DispatchStep {
    let mut dispatch = DualDispatch::new(is_stream);
    let step = dispatch.on_prefill(prefill);
    assert!(step.release_prefill);
    if step.next != Next::AwaitDecode {
        return step;
    }
    assert_eq!(step.outcomes, QUIET);
    let step = dispatch.on_decode(decode);
    assert!(!step.release_prefill);
    step
}

/// The last step when the decode worker answers before the prefill worker.
fn decode_first(is_stream: bool, prefill: SendOutcome, decode: SendOutcome) -> DispatchStep {
    let mut dispatch = DualDispatch::new(is_stream);
    let step = dispatch.on_decode(decode);
    assert_eq!(step.next, Next::AwaitPrefill);
    assert_eq!(step.outcomes, QUIET);
    assert!(!step.release_prefill);
    let step = dispatch.on_prefill(prefill);
    assert!(step.release_prefill);
    step
}

#[test]
fn the_order_of_answers_does_not_matter() {
    let all = [
        SERVED,
        SendOutcome::Answered(302),
        SendOutcome::Answered(400),
        SendOutcome::Answered(503),
        SendOutcome::Failed,
    ];
    for is_stream in [false, true] {
        for prefill in all {
            for decode in all {
                let one = prefill_first(is_stream, prefill, decode);
                let other = decode_first(is_stream, prefill, decode);
                assert_eq!(one.next, other.next);
                assert_eq!(one.outcomes, other.outcomes);
            }
        }
    }
}

#[test]
fn a_failed_prefill_spares_the_decode_worker() {
    for (prefill, blameless) in [
        (SendOutcome::Answered(400), true),
        (SendOutcome::Answered(429), true),
        (SendOutcome::Answered(302), false),
        (SendOutcome::Answered(500), false),
        (SendOutcome::Failed, false),
    ] {
        let step = prefill_first(false, prefill, SERVED);
        assert_eq!(step.next, Next::ReplyPrefillFailure);
        assert_eq!(step.outcomes, told(Some(blameless), None));
        assert!(are_outcomes_recorded(step.next));
    }
}

#[test]
fn a_failed_decode_spares_the_prefill_worker() {
    let step = prefill_first(false, SERVED, SendOutcome::Failed);
    assert_eq!(step.next, Next::ReplyDecodeUnreachable);
    assert_eq!(step.outcomes, told(Some(true), Some(false)));
    let step = prefill_first(true, SERVED, SendOutcome::Failed);
    assert_eq!(step.outcomes, told(Some(true), Some(false)));

    let step = prefill_first(false, SERVED, SendOutcome::Answered(503));
    assert_eq!(step.next, Next::ReplyDecodeRefused(503));
    assert_eq!(step.outcomes, told(Some(true), Some(false)));
    let step = prefill_first(false, SERVED, SendOutcome::Answered(404));
    assert_eq!(step.outcomes, told(Some(true), Some(true)));
    let step = prefill_first(true, SERVED, SendOutcome::Answered(503));
    assert_eq!(step.outcomes, told(Some(true), None));
    assert!(are_outcomes_recorded(step.next));
}

#[test]
fn a_served_request_is_told_by_its_reply() {
    let step = prefill_first(false, SERVED, SendOutcome::Answered(201));
    assert_eq!(step.next, Next::Serve(201));
    assert_eq!(step.outcomes, QUIET);
    assert!(!are_outcomes_recorded(step.next));

    let report = attempt_report(false, 201, false);
    assert_eq!(report.outcomes, told(Some(true), Some(true)));
    assert!(!report.worker_errors);
    let report = attempt_report(false, 201, true);
    assert_eq!(report.outcomes, told(Some(true), None));
    let report = attempt_report(false, 500, false);
    assert_eq!(report.outcomes, told(Some(false), Some(false)));
    assert!(report.worker_errors);
    let report = attempt_report(true, 502, false);
    assert_eq!(report.outcomes, QUIET);
    assert!(report.worker_errors);
}

#[test]
fn a_request_is_reported_by_its_last_reply() {
    assert_eq!(router_report(200, true), RouterReport::Served);
    assert_eq!(router_report(503, true), RouterReport::Nothing);
    assert_eq!(router_report(400, false), RouterReport::Error);
}

#[test]
fn responses_have_three_shapes() {
    assert_eq!(response_shape(true, true), ResponseShape::Streamed);
    assert_eq!(response_shape(true, false), ResponseShape::Streamed);
    assert_eq!(response_shape(false, true), ResponseShape::Merged);
    assert_eq!(response_shape(false, false), ResponseShape::PassedThrough);
}

fn prefill_worker() -> Worker {
    Worker {
        url: "http://p".to_string(),
        base_url: "http://p".to_string(),
        worker_type: WorkerType::Prefill {
            bootstrap_port: Some(1),
        },
        bootstrap_host: "p".to_string(),
        dp_rank: None,
        body_refusal: "not an object".to_string(),
        available: true,
    }
}

fn object() -> Option<Value> {
    serde_json::from_str(r#"{"n": 1}"#).ok()
}

#[test]
fn rooms_are_held_from_admission_until_prefill_answers() {
    let mut attempt = Attempt::new(false, Some(3));
    assert!(!holds_prefill_load(attempt.stage));
    assert_eq!(attempt.on_selection(None).ok(), Some(3));
    assert!(holds_prefill_load(attempt.stage) && !holds_rooms(attempt.stage));
    assert!(attempt.on_admission(None).is_ok());
    assert!(holds_rooms(attempt.stage));
    let body = attempt
        .on_document(
            object(),
            Some(&HeaderMap::new()),
            &prefill_worker(),
            &vec![4, 5, 6],
        )
        .ok()
        .unwrap();
    assert_eq!(body["bootstrap_room"][2], 6);
    assert!(holds_rooms(attempt.stage));
    assert!(attempt.on_preparation(None).is_ok());
    assert!(holds_rooms(attempt.stage));
    assert_eq!(attempt.on_decode(SERVED).next, Next::AwaitPrefill);
    assert!(holds_rooms(attempt.stage));
    assert_eq!(attempt.on_prefill(SERVED).next, Next::Serve(200));
    assert!(!holds_rooms(attempt.stage) && !holds_prefill_load(attempt.stage));
    assert_eq!(attempt.stage, Stage::Answering { recorded: false });
    assert_eq!(
        attempt.report(200).outcomes,
        told(Some(true), Some(true))
    );
}

#[test]
fn an_attempt_that_never_concerned_a_worker_blames_none() {
    let mut attempt = Attempt::new(false, None);
    let reply = attempt
        .on_selection(Some("none left".to_string()))
        .err()
        .unwrap();
    assert_eq!(reply.message, "No available servers: none left");
    assert_eq!(attempt.stage, Stage::Abandoned);
    assert_eq!(attempt.report(503).outcomes, QUIET);
    assert!(!attempt.report(503).worker_errors);

    let mut attempt = Attempt::new(false, None);
    assert_eq!(attempt.on_selection(None).ok(), Some(1));
    let reply = attempt
        .on_admission(Some(PrefillAdmissionError::Closed {
            worker: "w".to_string(),
        }))
        .err()
        .unwrap();
    assert_eq!(reply.status, 503);
    assert_eq!(attempt.stage, Stage::Abandoned);
    assert!(!holds_prefill_load(attempt.stage));

    let mut attempt = Attempt::new(false, None);
    assert!(attempt.on_selection(None).is_ok());
    assert!(attempt.on_admission(None).is_ok());
    let reply = attempt
        .on_document(None, None, &prefill_worker(), &vec![1])
        .err()
        .unwrap();
    assert_eq!(reply.code, "serialization_failed");
    assert_eq!(attempt.stage, Stage::Abandoned);
    assert!(!holds_rooms(attempt.stage));
}

#[test]
fn requests_that_cannot_be_made_ready_are_told_by_their_reply() {
    let mut attempt = Attempt::new(true, None);
    assert!(attempt.on_selection(None).is_ok());
    assert!(attempt.on_admission(None).is_ok());
    assert!(attempt
        .on_document(object(), None, &prefill_worker(), &vec![1])
        .is_ok());
    let reply = attempt
        .on_preparation(Some("broken".to_string()))
        .err()
        .unwrap();
    assert_eq!(reply.code, "pd_request_preparation_failed");
    assert_eq!(reply.message, "broken");
    assert_eq!(attempt.stage, Stage::Unsent);
    assert!(!holds_rooms(attempt.stage) && !holds_decode_load(attempt.stage));
    assert_eq!(attempt.report(500).outcomes, told(Some(false), None));
    assert!(attempt.report(500).worker_errors);
}

#[test]
fn what_is_told_early_is_not_told_again() {
    let mut attempt = Attempt::new(false, None);
    assert!(attempt.on_selection(None).is_ok());
    assert!(attempt.on_admission(None).is_ok());
    assert!(attempt
        .on_document(object(), None, &prefill_worker(), &vec![1])
        .is_ok());
    assert!(attempt.on_preparation(None).is_ok());
    let step = attempt.on_prefill(SendOutcome::Failed);
    assert_eq!(step.next, Next::ReplyPrefillFailure);
    assert_eq!(attempt.stage, Stage::Answering { recorded: true });
    assert_eq!(attempt.report(502).outcomes, QUIET);
    assert!(attempt.report(502).worker_errors);
}

#[test]
fn a_stream_ends_with_its_terminal_line() {
    let mut pump = StreamPump::new(200, false, None);
    assert_eq!(pump.verdict(), None);
    let step = pump.on_chunk(b"data: {}\n\n".to_vec());
    assert_eq!(step.send, b"data: {}\n\n".to_vec());
    assert!(!step.last);
    assert_eq!(pump.verdict(), None, "a client that leaves blames nobody");
    let step = pump.on_chunk(b"data: [DONE]\n\n".to_vec());
    assert_eq!(step.send, b"data: [DONE]\n\n".to_vec());
    assert!(step.last);
    assert_eq!(pump.verdict(), Some(true));
    assert_eq!(EVENT_STREAM, "text/event-stream");
}

#[test]
fn a_stream_may_end_without_its_terminal_line() {
    let mut pump = StreamPump::new(200, false, None);
    pump.on_end();
    assert_eq!(pump.verdict(), Some(true));
}

#[test]
fn a_stream_that_fails_is_held_against_the_worker() {
    let mut pump = StreamPump::new(200, false, None);
    assert_eq!(pump.on_error("reset"), "Stream error: reset");
    assert_eq!(pump.verdict(), Some(false));
}

#[test]
fn a_stream_that_answers_a_failure_stays_failed() {
    let mut pump = StreamPump::new(503, true, None);
    assert_eq!(pump.verdict(), Some(false));
    assert!(pump.on_chunk(b"data: [DONE]\n".to_vec()).last);
    pump.on_end();
    assert_eq!(pump.verdict(), Some(false));

    let mut client = StreamPump::new(404, true, None);
    client.on_end();
    assert_eq!(client.verdict(), Some(true));
}

#[test]
fn a_stream_carries_the_logprobs_of_the_prefill_where_asked() {
    let logprobs: Option<Value> = serde_json::from_str("[1]").ok();
    let chunk = br#"data: {"meta_info": {"input_token_logprobs": [2]}}"#.to_vec();
    let mut pump = StreamPump::new(200, true, logprobs.clone());
    assert_eq!(
        pump.on_chunk(chunk.clone()).send,
        b"data: {\"meta_info\":{\"input_token_logprobs\":[1,2]}}\n\n".to_vec()
    );
    assert_eq!(pump.on_chunk(vec![255]).send, vec![255]);
    let mut pump = StreamPump::new(200, false, logprobs);
    assert_eq!(pump.on_chunk(chunk.clone()).send, chunk);
    let mut pump = StreamPump::new(200, true, None);
    assert_eq!(pump.on_chunk(chunk.clone()).send, chunk);
}

#[test]
fn decode_load_is_held_from_sending_until_the_body_is_done() {
    for (is_stream, decode_early) in [(false, false), (true, false), (false, true)] {
        let mut attempt = Attempt::new(is_stream, None);
        assert!(attempt.on_selection(None).is_ok());
        assert!(attempt.on_admission(None).is_ok());
        assert!(attempt
            .on_document(object(), None, &prefill_worker(), &vec![1])
            .is_ok());
        assert!(!holds_decode_load(attempt.stage));
        assert!(attempt.on_preparation(None).is_ok());
        assert!(holds_decode_load(attempt.stage));
        if decode_early {
            attempt.on_decode(SERVED);
            assert!(holds_decode_load(attempt.stage) && holds_rooms(attempt.stage));
            attempt.on_prefill(SERVED);
        } else {
            attempt.on_prefill(SERVED);
            assert!(holds_decode_load(attempt.stage));
            assert!(!holds_rooms(attempt.stage) && !holds_prefill_load(attempt.stage));
            attempt.on_decode(SERVED);
        }
        assert!(holds_decode_load(attempt.stage));
        let report = attempt.report(200);
        attempt.on_body_done();
        assert!(!holds_decode_load(attempt.stage));
        assert_eq!(attempt.stage, Stage::Over { recorded: false });
        assert_eq!(attempt.report(200), report);
    }
}

#[test]
fn a_pump_is_fresh_again_after_its_terminal_line() {
    let mut pump = StreamPump::new(200, false, None);
    assert!(pump.on_chunk(b"data: [DONE]\ndata: [DO".to_vec()).last);
    assert!(!pump.on_chunk(b"NE]\n".to_vec()).last);
    assert!(pump.on_chunk(b"data: [DONE]\n".to_vec()).last);
}

#[test]
fn each_breaker_is_told_at_most_once_whatever_the_answers() {
    let all = [
        SERVED,
        SendOutcome::Answered(302),
        SendOutcome::Answered(400),
        SendOutcome::Answered(503),
        SendOutcome::Failed,
    ];
    for is_stream in [false, true] {
        for decode_is_first in [false, true] {
            for prefill in all {
                for decode in all {
                    let mut attempt = Attempt::new(is_stream, None);
                    assert!(attempt.on_selection(None).is_ok());
                    assert!(attempt.on_admission(None).is_ok());
                    assert!(attempt
                        .on_document(object(), None, &prefill_worker(), &vec![1])
                        .is_ok());
                    assert!(attempt.on_preparation(None).is_ok());
                    let mut told = vec![];
                    if decode_is_first {
                        told.push(attempt.on_decode(decode).outcomes);
                        told.push(attempt.on_prefill(prefill).outcomes);
                    } else {
                        let step = attempt.on_prefill(prefill);
                        told.push(step.outcomes);
                        if step.next == Next::AwaitDecode {
                            told.push(attempt.on_decode(decode).outcomes);
                        }
                    }
                    told.push(attempt.report(200).outcomes);
                    let to_prefill = told.iter().filter(|o| o.prefill.is_some()).count();
                    let to_decode = told.iter().filter(|o| o.decode.is_some()).count();
                    assert_eq!(to_prefill, 1);
                    let expected = if prefill != SERVED {
                        0
                    } else if !is_stream || decode == SendOutcome::Failed {
                        1
                    } else {
                        0
                    };
                    assert_eq!(to_decode, expected);
                }
            }
        }
    }
}

#[test]
fn the_end_of_a_stream_leaves_its_open_line() {
    let mut pump = StreamPump::new(200, false, None);
    assert!(!pump.on_chunk(b"data: [DO".to_vec()).last);
    pump.on_end();
    assert_eq!(pump.on_error("late"), "Stream error: late");
    assert!(pump.on_chunk(b"NE]\n".to_vec()).last);
    assert_eq!(pump.verdict(), Some(false));
}
