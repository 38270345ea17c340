use std::borrow::Cow;

use axum::http::{HeaderMap, HeaderValue};
use pd_router::headers::{build_post_headers, read_header};
use pd_router::request::{REQUEST_ID_BODY_KEY, REQUEST_ID_HEADER};
use pd_router::router::PDRouter;
use pd_router::worker::{Worker, WorkerType};
use serde_json::Value;

fn json(text: &str) -> Value {
    serde_json::from_str(text).unwrap()
}

fn worker(url: &str, worker_type: WorkerType, dp_rank: Option<usize>) -> Worker {
    let registered = match dp_rank {
        Some(rank) => format!("{url}@{rank}"),
        None => url.to_string(),
    };
    Worker {
        url: registered,
        base_url: url.to_string(),
        worker_type,
        bootstrap_host: "prefill".to_string(),
        dp_rank,
        body_refusal: "not an object".to_string(),
        available: true,
    }
}

fn prefill_worker(dp_rank: Option<usize>) -> Worker {
    worker(
        "http://prefill:30000",
        WorkerType::Prefill {
            bootstrap_port: Some(8998),
        },
        dp_rank,
    )
}

fn decode_worker(dp_rank: Option<usize>) -> Worker {
    worker("http://decode:30001", WorkerType::Decode, dp_rank)
}

fn request_id(id: &'static str) -> HeaderMap {
    let mut headers = HeaderMap::new();
    headers.insert(REQUEST_ID_HEADER, HeaderValue::from_static(id));
    headers
}

#[test]
fn test_request_id_is_restored_for_prefill_and_decode_json() {
    let mut headers = HeaderMap::new();
    headers.insert(
        REQUEST_ID_HEADER,
        HeaderValue::from_static("pressure-full-2102-a1b2c3"),
    );
    let original = json(r#"{"model": "qwen", "messages": []}"#);

    let first =
        PDRouter::inject_request_id_into_value(original.clone(), Some(&headers), None).unwrap();
    let repeated = PDRouter::inject_request_id_into_value(original, Some(&headers), None).unwrap();

    assert_eq!(first[REQUEST_ID_BODY_KEY], "pressure-full-2102-a1b2c3");
    assert_eq!(first[REQUEST_ID_BODY_KEY], repeated[REQUEST_ID_BODY_KEY]);
}

#[test]
fn test_request_id_batch_is_unique_and_deterministic() {
    let mut headers = HeaderMap::new();
    headers.insert(
        REQUEST_ID_HEADER,
        HeaderValue::from_static("pressure-batch"),
    );
    let value = PDRouter::inject_request_id_into_value(
        json(r#"{"model": "qwen", "messages": []}"#),
        Some(&headers),
        Some(3),
    )
    .unwrap();

    assert_eq!(
        value[REQUEST_ID_BODY_KEY],
        json(r#"["pressure-batch-0", "pressure-batch-1", "pressure-batch-2"]"#)
    );
}

#[test]
fn test_invalid_request_id_is_not_injected() {
    for invalid in ["contains space", "slash/not/allowed", "", &"x".repeat(97)] {
        let mut headers = HeaderMap::new();
        headers.insert(REQUEST_ID_HEADER, HeaderValue::from_str(invalid).unwrap());
        let value = PDRouter::inject_request_id_into_value(
            json(r#"{"model": "qwen", "messages": []}"#),
            Some(&headers),
            None,
        )
        .unwrap();
        assert!(
            value.get(REQUEST_ID_BODY_KEY).is_none(),
            "invalid={invalid:?}"
        );
    }
}

#[test]
fn test_prepare_pd_worker_requests_uses_dp_aware_rank() {
    let prefill = prefill_worker(Some(2));
    let decode = decode_worker(Some(1));
    let request = json(
        r#"{
            "prompt": "shared prefix",
            "max_tokens": 8,
            "bootstrap_host": "prefill",
            "bootstrap_port": 8998,
            "bootstrap_room": 1234
        }"#,
    );

    let (prefill_request, decode_request) =
        PDRouter::prepare_pd_worker_requests("/v1/completions", &request, &prefill, &decode)
            .unwrap();

    assert_eq!(
        prefill_request.endpoint_url,
        "http://prefill:30000/v1/completions"
    );
    assert_eq!(prefill_request.body["data_parallel_rank"], 2);
    assert!(prefill_request.body.get("disagg_prefill_dp_rank").is_none());

    assert_eq!(
        decode_request.endpoint_url,
        "http://decode:30001/v1/completions"
    );
    assert_eq!(decode_request.body["data_parallel_rank"], 1);
    assert_eq!(decode_request.body["disagg_prefill_dp_rank"], 2);
    assert_eq!(decode_request.body["bootstrap_room"], 1234);
    assert!(matches!(prefill_request.body, Cow::Owned(_)));
    assert!(matches!(decode_request.body, Cow::Owned(_)));
}

#[test]
fn test_prepare_pd_worker_requests_preserves_non_dp_workers() {
    let prefill = prefill_worker(None);
    let decode = decode_worker(None);
    let request = json(
        r#"{
            "prompt": "shared prefix",
            "max_tokens": 8,
            "bootstrap_room": 1234
        }"#,
    );

    let (prefill_request, decode_request) =
        PDRouter::prepare_pd_worker_requests("/v1/completions", &request, &prefill, &decode)
            .unwrap();

    assert_eq!(
        prefill_request.endpoint_url,
        "http://prefill:30000/v1/completions"
    );
    assert_eq!(
        decode_request.endpoint_url,
        "http://decode:30001/v1/completions"
    );
    assert!(prefill_request.body.get("data_parallel_rank").is_none());
    assert!(decode_request.body.get("data_parallel_rank").is_none());
    assert!(decode_request.body.get("disagg_prefill_dp_rank").is_none());
    assert!(matches!(prefill_request.body, Cow::Borrowed(_)));
    assert!(matches!(decode_request.body, Cow::Borrowed(_)));
}

#[test]
fn test_worker_endpoint_url_uses_base_url_for_dp_aware_worker() {
    let worker = prefill_worker(Some(2));

    assert_eq!(
        PDRouter::worker_endpoint_url(&worker, "health_generate"),
        "http://prefill:30000/health_generate"
    );
    assert_eq!(
        PDRouter::worker_endpoint_url(&worker, "/v1/models"),
        "http://prefill:30000/v1/models"
    );
}

#[test]
fn ranks_alone_tell_the_decode_request_from_the_prefill_request() {
    let request = json(r#"{"rid": "a", "bootstrap_room": 5, "n": 1}"#);
    let (prefill_request, decode_request) = PDRouter::prepare_pd_worker_requests(
        "/generate",
        &request,
        &prefill_worker(Some(3)),
        &decode_worker(None),
    )
    .unwrap();
    assert_eq!(
        prefill_request.body.into_owned(),
        json(r#"{"rid": "a", "bootstrap_room": 5, "n": 1, "data_parallel_rank": 3}"#)
    );
    assert_eq!(
        decode_request.body.into_owned(),
        json(r#"{"rid": "a", "bootstrap_room": 5, "n": 1, "disagg_prefill_dp_rank": 3}"#)
    );
}

#[test]
fn a_request_that_is_no_object_cannot_carry_a_rank() {
    let request = json("[1]");
    let failed = PDRouter::prepare_pd_worker_requests(
        "/generate",
        &request,
        &prefill_worker(Some(0)),
        &decode_worker(None),
    );
    assert_eq!(
        failed.err().unwrap(),
        "Failed to prepare request for worker http://prefill:30000@0: not an object"
    );
    let failed = PDRouter::prepare_pd_worker_requests(
        "/generate",
        &request,
        &prefill_worker(None),
        &decode_worker(Some(4)),
    );
    assert_eq!(
        failed.err().unwrap(),
        "Failed to prepare request for worker http://decode:30001@4: not an object"
    );
    assert_eq!(
        PDRouter::inject_prefill_dp_rank_for_decode(Cow::Borrowed(&request), &prefill_worker(Some(1)))
            .err()
            .unwrap(),
        "Failed to insert disagg_prefill_dp_rank because request body is not an object"
    );
    assert!(PDRouter::prepare_pd_worker_requests(
        "/generate",
        &request,
        &prefill_worker(None),
        &decode_worker(None),
    )
    .is_ok());
}

#[test]
fn safe_identifiers_are_told_from_others() {
    assert!(PDRouter::is_safe_request_id("aZ09-_.:"));
    assert!(PDRouter::is_safe_request_id(&"x".repeat(96)));
    assert!(!PDRouter::is_safe_request_id(&"x".repeat(97)));
    assert!(!PDRouter::is_safe_request_id(""));
    assert!(!PDRouter::is_safe_request_id("\u{e9}"));
    assert!(!PDRouter::is_safe_request_id("a,b"));
    assert!(!PDRouter::is_safe_request_id("a@b"));
    assert!(!PDRouter::is_safe_request_id("a[b"));
    assert!(!PDRouter::is_safe_request_id("a`b"));
    assert!(!PDRouter::is_safe_request_id("a{b"));
}

#[test]
fn an_identifier_is_trimmed_and_replaces_the_one_in_the_body() {
    let headers = request_id("  id-1\t");
    let value = PDRouter::inject_request_id_into_value(
        json(r#"{"rid": "old", "n": 2}"#),
        Some(&headers),
        Some(1),
    )
    .unwrap();
    assert_eq!(value, json(r#"{"rid": "id-1", "n": 2}"#));
}

#[test]
fn setting_an_identifier_twice_changes_nothing() {
    let headers = request_id("id");
    let once = PDRouter::inject_request_id_into_value(json("{}"), Some(&headers), Some(11)).unwrap();
    let twice =
        PDRouter::inject_request_id_into_value(once.clone(), Some(&headers), Some(11)).unwrap();
    assert_eq!(once, twice);
    assert_eq!(once["rid"][10], "id-10");
    assert_eq!(once["rid"].as_array().unwrap().len(), 11);
}

#[test]
fn without_an_identifier_the_body_may_be_anything() {
    let unchanged =
        PDRouter::inject_request_id_into_value(json("[1]"), Some(&HeaderMap::new()), None).unwrap();
    assert_eq!(unchanged, json("[1]"));
    assert_eq!(
        PDRouter::inject_request_id_into_value(json("[1]"), None, Some(2)).unwrap(),
        json("[1]")
    );
    let headers = request_id("id");
    assert_eq!(
        PDRouter::inject_request_id_into_value(json("[1]"), Some(&headers), None).unwrap_err(),
        "Request must be a JSON object"
    );
}

#[test]
fn an_identifier_that_cannot_be_shown_is_ignored() {
    let mut headers = HeaderMap::new();
    headers.insert(
        REQUEST_ID_HEADER,
        HeaderValue::from_bytes(&[97, 200]).unwrap(),
    );
    assert_eq!(read_header(Some(&headers), REQUEST_ID_HEADER), None);
    assert_eq!(
        PDRouter::inject_request_id_into_value(json("{}"), Some(&headers), None).unwrap(),
        json("{}")
    );
}

#[test]
fn the_first_of_several_values_is_read() {
    let mut headers = HeaderMap::new();
    headers.append(REQUEST_ID_HEADER, HeaderValue::from_static("first"));
    headers.append(REQUEST_ID_HEADER, HeaderValue::from_static("second"));
    assert_eq!(read_header(Some(&headers), REQUEST_ID_HEADER), Some("first"));
    assert_eq!(read_header(Some(&headers), "x-other"), None);
    assert_eq!(read_header(None, REQUEST_ID_HEADER), None);
}

#[test]
fn one_request_gets_one_meeting_place() {
    let value = PDRouter::inject_bootstrap_into_value(
        json(r#"{"rid": "a"}"#),
        &prefill_worker(None),
        None,
        &vec![u64::MAX],
    )
    .unwrap();
    assert_eq!(
        value,
        json(
            r#"{
                "rid": "a",
                "bootstrap_host": "prefill",
                "bootstrap_port": 8998,
                "bootstrap_room": 18446744073709551615
            }"#
        )
    );
}

#[test]
fn a_batch_gets_one_meeting_place_for_each_item() {
    let value = PDRouter::inject_bootstrap_into_value(
        json(r#"{"bootstrap_room": "old"}"#),
        &worker(
            "http://p",
            WorkerType::Prefill {
                bootstrap_port: None,
            },
            None,
        ),
        Some(2),
        &vec![7, 9],
    )
    .unwrap();
    assert_eq!(
        value,
        json(
            r#"{
                "bootstrap_host": ["prefill", "prefill"],
                "bootstrap_port": [null, null],
                "bootstrap_room": [7, 9]
            }"#
        )
    );
    let empty = PDRouter::inject_bootstrap_into_value(
        json("{}"),
        &prefill_worker(None),
        Some(0),
        &vec![],
    )
    .unwrap();
    assert_eq!(empty["bootstrap_room"], json("[]"));
}

#[test]
fn a_body_that_is_no_object_gets_no_meeting_place() {
    assert_eq!(
        PDRouter::inject_bootstrap_into_value(json("3"), &prefill_worker(None), None, &vec![1])
            .unwrap_err(),
        "Request must be a JSON object"
    );
}

#[test]
fn a_body_is_written_with_identifier_and_meeting_place() {
    let headers = request_id("id");
    let body = PDRouter::attempt_body(
        json(r#"{"n": 2}"#),
        Some(&headers),
        &prefill_worker(None),
        Some(2),
        &vec![3, 4],
    )
    .unwrap();
    assert_eq!(
        body,
        json(
            r#"{
                "n": 2,
                "rid": ["id-0", "id-1"],
                "bootstrap_host": ["prefill", "prefill"],
                "bootstrap_port": [8998, 8998],
                "bootstrap_room": [3, 4]
            }"#
        )
    );
    let failed =
        PDRouter::attempt_body(json("null"), None, &prefill_worker(None), None, &vec![1])
            .err()
            .unwrap();
    assert_eq!(failed.status, 500);
    assert_eq!(failed.code, "serialization_failed");
    assert_eq!(failed.message, "Failed to serialize request");
}

#[test]
fn headers_are_forwarded_in_order_where_they_may_be() {
    let mut headers = HeaderMap::new();
    headers.insert("x-one", HeaderValue::from_static("1"));
    headers.insert("host", HeaderValue::from_static("here"));
    headers.append("x-one", HeaderValue::from_static("2"));
    headers.insert("x-opaque", HeaderValue::from_bytes(&[255]).unwrap());
    let sent = build_post_headers(Some(&headers), false, |name: &str| name != "host");
    assert_eq!(
        sent,
        vec![
            ("x-one".to_string(), "1".to_string()),
            ("x-one".to_string(), "2".to_string()),
        ]
    );
    let closed = build_post_headers(None, true, |_name: &str| true);
    assert_eq!(
        closed,
        vec![("Connection".to_string(), "close".to_string())]
    );
}

#[test]
fn what_a_worker_makes_of_a_body_is_passed_on() {
    let worker = prefill_worker(Some(2));
    let ready = PDRouter::directed_worker_request("/generate", &worker, Ok(json("[7]"))).unwrap();
    assert_eq!(ready.endpoint_url, "http://prefill:30000/generate");
    assert_eq!(ready.body.into_owned(), json("[7]"));
    assert_eq!(
        PDRouter::directed_worker_request("/generate", &worker, Err("busy".to_string()))
            .err()
            .unwrap(),
        "Failed to prepare request for worker http://prefill:30000@2: busy"
    );
}
