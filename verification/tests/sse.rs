use pd_router::sse::SseDoneDetector;

#[test]
fn test_sse_done_detector_requires_a_complete_data_line() {
    let mut detector = SseDoneDetector::default();
    let embedded = br#"data: {"choices":[{"delta":{"tool_calls":[{"function":{"arguments":"w.Write([]byte(\"data: [DONE]\\n\\n\"))"}}]}}]}

"#;

    assert!(!detector.observe(embedded));
    assert!(detector.observe(b"data: [DONE]\n\n"));
}

#[test]
fn test_sse_done_detector_handles_chunk_boundaries_and_crlf() {
    let mut detector = SseDoneDetector::default();

    assert!(!detector.observe(b"data: [DO"));
    assert!(!detector.observe(b"NE]\r"));
    assert!(detector.observe(b"\n\r\n"));

    let mut no_space = SseDoneDetector::default();
    assert!(no_space.observe(b"data:[DONE]\n"));
}

#[test]
fn test_sse_done_detector_rejects_prefixes_and_suffixes() {
    let mut detector = SseDoneDetector::default();

    assert!(!detector.observe(b"prefix data: [DONE]\n"));
    assert!(!detector.observe(b"data: [DONE] suffix\n"));
    assert!(detector.observe(b"data: [DONE]\n"));
}

#[test]
fn every_way_of_cutting_the_terminal_line_is_recognised() {
    let stream: &[u8] = b"data: {}\n\ndata: [DONE]\r\n";
    for cut in 0..stream.len() {
        let mut detector = SseDoneDetector::default();
        assert!(!detector.observe(&stream[..cut]), "cut at {cut}");
        assert!(detector.observe(&stream[cut..]), "cut at {cut}");
    }
}

#[test]
fn a_line_that_grew_too_long_is_forgotten_with_its_newline() {
    let mut detector = SseDoneDetector::default();
    assert!(!detector.observe(b"data: [DONE]\r\r"));
    assert!(!detector.observe(b"\n"));
    assert!(!detector.observe(b"xxxxxxxxxxxxxxxxxxxxxxxxxxxx"));
    assert!(!detector.observe(b"data: [DONE]\n"));
    assert!(detector.observe(b"data: [DONE]\n"));
}

#[test]
fn only_one_carriage_return_is_dropped() {
    let mut detector = SseDoneDetector::default();
    assert!(!detector.observe(b"data:[DONE]\r\r\n"));
    assert!(detector.observe(b"data:[DONE]\r\n"));
}

#[test]
fn an_unfinished_terminal_line_is_not_terminal() {
    let mut detector = SseDoneDetector::default();
    assert!(!detector.observe(b"data: [DONE]"));
    assert!(!detector.observe(b""));
    assert!(detector.observe(b"\n"));
}

#[test]
fn nothing_behind_a_terminal_line_is_kept() {
    let mut detector = SseDoneDetector::default();
    assert!(detector.observe(b"data: [DONE]\ndata: [DONE]"));
    assert!(!detector.observe(b"\n"));
    assert!(detector.observe(b"data: [DONE]\n"));
}
