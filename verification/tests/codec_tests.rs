use chatload::{decode_frame, Client, ClientMessage, FrameVerdict, TransportType};

fn ws_client() -> Client {
    Client::new(TransportType::Ws)
}

#[test]
fn encode_plain_text() {
    let frame = chatload::encode_client_message(&ClientMessage::SendMessage(
        b"Hello world!".to_vec(),
    ));
    assert_eq!(
        frame,
        br#"{"type":"sendMessage","payload":"Hello world!"}"#.to_vec()
    );
}

#[test]
fn encode_empty_text() {
    let frame = chatload::encode_client_message(&ClientMessage::SendMessage(Vec::new()));
    assert_eq!(frame, br#"{"type":"sendMessage","payload":""}"#.to_vec());
}

#[test]
fn encode_escapes_specials() {
    let frame = chatload::encode_client_message(&ClientMessage::SendMessage(
        b"a\"b\\c\nd\te\x01f".to_vec(),
    ));
    assert_eq!(
        frame,
        br#"{"type":"sendMessage","payload":"a\"b\\c\nd\te\u0001f"}"#.to_vec()
    );
}

#[test]
fn encoded_frame_is_valid_json_to_serde() {
    let text = "Hi \"there\" \\ new\nline\u{8}";
    let frame = ws_client().send_message(text.as_bytes());
    let v: serde_json::Value = serde_json::from_slice(&frame).expect("frame must parse");
    assert_eq!(v["type"], "sendMessage");
    assert_eq!(v["payload"].as_str().expect("payload is a string"), text);
}

#[test]
fn decode_recognized_chat_event() {
    let frame =
        br#"{"type":"message","payload":{"username":"player-0","message":"Hello world!","timestamp":"2024-01-01T00:00:00Z"}}"#;
    match decode_frame(frame) {
        FrameVerdict::Recognized(m) => {
            assert_eq!(m.username, b"player-0".to_vec());
            assert_eq!(m.message, b"Hello world!".to_vec());
            assert_eq!(m.timestamp, b"2024-01-01T00:00:00Z".to_vec());
        }
        _ => panic!("expected a recognized chat event"),
    }
}

#[test]
fn decode_skips_unrecognized_tag() {
    let frame = br#"{"type":"presence","payload":{"who":"player-1"}}"#;
    assert!(matches!(decode_frame(frame), FrameVerdict::Unrecognized));
}

#[test]
fn decode_fails_invalid_json() {
    assert!(matches!(
        decode_frame(b"{not json at all"),
        FrameVerdict::Malformed
    ));
}

#[test]
fn decode_fails_non_object_document() {
    assert!(matches!(decode_frame(b"[1,2,3]"), FrameVerdict::Malformed));
}

#[test]
fn decode_fails_envelope_without_payload() {
    assert!(matches!(
        decode_frame(br#"{"type":"presence"}"#),
        FrameVerdict::Malformed
    ));
}

#[test]
fn decode_fails_recognized_tag_with_bad_payload() {
    let frame = br#"{"type":"message","payload":{"username":"u","message":7,"timestamp":"t"}}"#;
    assert!(matches!(decode_frame(frame), FrameVerdict::Malformed));
}

#[test]
fn decode_fails_recognized_tag_with_missing_field() {
    let frame = br#"{"type":"message","payload":{"username":"u","timestamp":"t"}}"#;
    assert!(matches!(decode_frame(frame), FrameVerdict::Malformed));
}

#[test]
fn decode_allows_extra_payload_fields() {
    let frame =
        br#"{"type":"message","payload":{"username":"u","message":"m","timestamp":"t","extra":[1,2]}}"#;
    match decode_frame(frame) {
        FrameVerdict::Recognized(m) => assert_eq!(m.message, b"m".to_vec()),
        _ => panic!("extra payload fields must not hurt"),
    }
}

#[test]
fn round_trip_through_crafted_echo() {
    let original = "tricky \"text\" with \\ and\nnewline";
    let client = ws_client();
    let frame = client.send_message(original.as_bytes());
    // The escaped payload literal sits between the fixed envelope prefix
    // and the closing quote-brace.
    let prefix = br#"{"type":"sendMessage","payload":""#;
    let escaped = &frame[prefix.len()..frame.len() - 2];
    let echo = format!(
        "{{\"type\":\"message\",\"payload\":{{\"username\":\"u1\",\"message\":\"{}\",\"timestamp\":\"t1\"}}}}",
        String::from_utf8(escaped.to_vec()).unwrap()
    );
    match decode_frame(echo.as_bytes()) {
        FrameVerdict::Recognized(m) => assert_eq!(m.message, original.as_bytes().to_vec()),
        _ => panic!("echo of an encoded message must decode back"),
    }
}
