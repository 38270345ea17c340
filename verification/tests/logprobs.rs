use pd_router::router::PDRouter;
use serde_json::Value;

fn json(text: &str) -> Value {
    serde_json::from_str(text).unwrap()
}

fn merge(prefill: &str, decode: &str) -> (bool, Value) {
    let mut decode = json(decode);
    let merged = PDRouter::merge_logprobs_in_json(&json(prefill), &mut decode);
    (merged, decode)
}

#[test]
fn two_lists_are_joined_prefill_first() {
    let (merged, decode) = merge(
        r#"{"meta_info": {"input_token_logprobs": [1, 2], "id": "p"}}"#,
        r#"{"text": "t", "meta_info": {"input_token_logprobs": [3], "id": "d"}}"#,
    );
    assert!(merged);
    assert_eq!(
        decode,
        json(r#"{"text": "t", "meta_info": {"input_token_logprobs": [1, 2, 3], "id": "d"}}"#)
    );
}

#[test]
fn an_empty_prefill_list_changes_nothing() {
    let before = r#"{"meta_info": {"input_token_logprobs": [[-0.5, 3, "x"]]}}"#;
    let (merged, decode) = merge(r#"{"meta_info": {"input_token_logprobs": []}}"#, before);
    assert!(merged);
    assert_eq!(decode, json(before));
}

#[test]
fn joining_twice_is_joining_both() {
    let (_, once) = merge(
        r#"{"meta_info": {"input_token_logprobs": [2]}}"#,
        r#"{"meta_info": {"input_token_logprobs": [3]}}"#,
    );
    let (_, twice) = merge(
        r#"{"meta_info": {"input_token_logprobs": [1]}}"#,
        &once.to_string(),
    );
    let (_, at_once) = merge(
        r#"{"meta_info": {"input_token_logprobs": [1, 2]}}"#,
        r#"{"meta_info": {"input_token_logprobs": [3]}}"#,
    );
    assert_eq!(twice, at_once);
}

#[test]
fn without_two_lists_there_is_nothing_to_join() {
    let list = r#"{"meta_info": {"input_token_logprobs": [1]}}"#;
    for (prefill, decode) in [
        ("{}", list),
        (r#"{"meta_info": {}}"#, list),
        (r#"{"meta_info": {"input_token_logprobs": null}}"#, list),
        (list, "{}"),
        (list, r#"{"meta_info": {"other": 1}}"#),
        (list, "[]"),
        (list, r#"{"meta_info": 3}"#),
    ] {
        let (merged, after) = merge(prefill, decode);
        assert!(!merged, "{prefill} {decode}");
        assert_eq!(after, json(decode), "{prefill} {decode}");
    }
}

#[test]
fn what_is_no_list_in_a_decode_response_becomes_null() {
    let (merged, decode) = merge(
        r#"{"meta_info": {"input_token_logprobs": [1]}}"#,
        r#"{"meta_info": {"input_token_logprobs": "x", "id": 1}}"#,
    );
    assert!(!merged);
    assert_eq!(
        decode,
        json(r#"{"meta_info": {"input_token_logprobs": null, "id": 1}}"#)
    );
}

#[test]
fn a_data_event_is_rewritten_with_joined_lists() {
    let merged = PDRouter::merge_streaming_logprobs(
        &Some(json("[1]")),
        b"data: {\"meta_info\": {\"input_token_logprobs\": [2]}, \"a\": \"\xc3\xa9\"}\r\n\r\n",
    )
    .unwrap();
    assert_eq!(
        String::from_utf8(merged).unwrap(),
        "data: {\"a\":\"\u{e9}\",\"meta_info\":{\"input_token_logprobs\":[1,2]}}\n\n"
    );
}

#[test]
fn a_data_event_without_lists_is_written_anew() {
    assert_eq!(
        PDRouter::merge_streaming_logprobs(&None, b"data:   {\"b\": 1 , \"a\": 2}\n\n"),
        Ok(b"data: {\"a\":2,\"b\":1}\n\n".to_vec())
    );
    assert_eq!(
        PDRouter::merge_streaming_logprobs(&Some(json("3")), b"data: data: [1, 2]"),
        Ok(b"data: [1,2]\n\n".to_vec())
    );
}

#[test]
fn other_chunks_are_refused() {
    for chunk in [
        &b"data: [DONE]\n\n"[..],
        b"data: {\"x\": \"[DONE]\"}\n\n",
        b"event: x\n\n",
        b"data:{}\n\n",
        b"data: {",
        b"data: \xff",
        b"",
        b"data: {}\n\ndata: {}\n\n",
    ] {
        assert_eq!(
            PDRouter::merge_streaming_logprobs(&Some(json("[1]")), chunk),
            Err(()),
            "{chunk:?}"
        );
    }
}

#[test]
fn a_whole_body_is_rewritten_where_it_can_be() {
    let prefill = Some(br#"{"meta_info": {"input_token_logprobs": [1]}}"#.to_vec());
    let decode = br#"{"meta_info": {"input_token_logprobs": [2]}}"#.to_vec();
    assert_eq!(
        PDRouter::non_streaming_body(true, &prefill, decode.clone()),
        br#"{"meta_info":{"input_token_logprobs":[1,2]}}"#.to_vec()
    );
    assert_eq!(
        PDRouter::non_streaming_body(false, &prefill, decode.clone()),
        decode
    );
    assert_eq!(
        PDRouter::non_streaming_body(true, &None, decode.clone()),
        decode
    );
    assert_eq!(
        PDRouter::non_streaming_body(true, &Some(b"{".to_vec()), decode.clone()),
        decode
    );
    assert_eq!(
        PDRouter::non_streaming_body(true, &prefill, b"not json".to_vec()),
        b"not json".to_vec()
    );
    assert_eq!(
        PDRouter::merged_document(&json("{}"), json("[1, 2]")),
        Some(b"[1,2]".to_vec())
    );
}

#[test]
fn prefill_logprobs_are_read_where_they_are_asked_for() {
    let body = Some(br#"{"meta_info": {"input_token_logprobs": [1]}}"#.to_vec());
    assert_eq!(
        PDRouter::streaming_prefill_logprobs(true, &body),
        Some(json("[1]"))
    );
    assert_eq!(PDRouter::streaming_prefill_logprobs(false, &body), None);
    assert_eq!(PDRouter::streaming_prefill_logprobs(true, &None), None);
    assert_eq!(
        PDRouter::streaming_prefill_logprobs(true, &Some(b"x".to_vec())),
        None
    );
    assert_eq!(PDRouter::reported_logprobs(&json("[[1]]")), None);
    assert_eq!(
        PDRouter::reported_logprobs(&json(r#"{"meta_info": {"input_token_logprobs": null}}"#)),
        Some(Value::Null)
    );
}
