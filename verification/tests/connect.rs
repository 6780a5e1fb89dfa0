use gifdex_ingest::connect::{basic_auth_value, frame_response, FrameAction, StreamFrame,
    RECONNECT_COOLDOWN_SECS};

#[test]
fn basic_auth_header_value_is_exact() {
    // base64("admin:pw") == "YWRtaW46cHc=".
    let value = basic_auth_value(&b"pw".to_vec());
    assert_eq!(String::from_utf8(value).unwrap(), "Basic YWRtaW46cHc=");
}

#[test]
fn basic_auth_header_empty_secret() {
    // base64("admin:") == "YWRtaW46".
    let value = basic_auth_value(&Vec::new());
    assert_eq!(String::from_utf8(value).unwrap(), "Basic YWRtaW46");
}

#[test]
fn ping_is_answered_with_identical_payload() {
    match frame_response(StreamFrame::Ping(vec![9u8, 8, 7])) {
        FrameAction::Pong(p) => assert_eq!(p, vec![9u8, 8, 7]),
        other => panic!("expected a pong, got {:?}", other),
    }
}

#[test]
fn text_is_processed_and_close_ends_the_session() {
    match frame_response(StreamFrame::Text(b"{}".to_vec())) {
        FrameAction::Process(p) => assert_eq!(p, b"{}".to_vec()),
        other => panic!("expected processing, got {:?}", other),
    }
    assert!(matches!(frame_response(StreamFrame::Close), FrameAction::EndSession));
    assert!(matches!(frame_response(StreamFrame::Other), FrameAction::Ignore));
}

#[test]
fn reconnect_cooldown_is_fixed() {
    assert_eq!(RECONNECT_COOLDOWN_SECS, 5);
}
