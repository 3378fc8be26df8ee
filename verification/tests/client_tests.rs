use chatload::{
    Client, ConnectError, FrameEvent, ReceiveError, TransportType, WaitStep,
};

#[test]
fn transport_from_str() {
    assert!(matches!(
        TransportType::from_str("ws"),
        Some(TransportType::Ws)
    ));
    assert!(TransportType::from_str("tcp").is_none());
    assert!(TransportType::from_str("").is_none());
}

#[test]
fn connect_rewrites_scheme_and_appends_parameters() {
    let (c, url) = Client::connect(
        &TransportType::Ws,
        b"http://chat.example:9000/lobby",
        b"player-0",
        b"abc123-0",
    )
    .expect("address has a scheme");
    assert!(matches!(c.transport, TransportType::Ws));
    assert_eq!(
        url,
        b"ws://chat.example:9000/lobby?room=abc123-0&username=player-0".to_vec()
    );
}

#[test]
fn connect_appends_to_an_existing_query() {
    let (_, url) = Client::connect(
        &TransportType::Ws,
        b"https://chat.example/path?tls=1",
        b"player-1",
        b"r-1",
    )
    .expect("address has a scheme");
    assert_eq!(
        url,
        b"ws://chat.example/path?tls=1&room=r-1&username=player-1".to_vec()
    );
}

#[test]
fn connect_percent_encodes_parameter_values() {
    let (_, url) = Client::connect(
        &TransportType::Ws,
        b"http://h/",
        b"a b&c=d",
        b"x/y",
    )
    .expect("address has a scheme");
    assert_eq!(
        url,
        b"ws://h/?room=x%2Fy&username=a+b%26c%3Dd".to_vec()
    );
}

#[test]
fn connect_rejects_address_without_scheme() {
    match Client::connect(&TransportType::Ws, b"chat.example:9000", b"u", b"r") {
        Err(ConnectError::InvalidAddress) => (),
        _ => panic!("an address without a scheme cannot be rewritten"),
    }
}

#[test]
fn send_message_produces_the_envelope() {
    let c = Client::new(TransportType::Ws);
    assert_eq!(
        c.send_message(b"Hello world!"),
        br#"{"type":"sendMessage","payload":"Hello world!"}"#.to_vec()
    );
}

#[test]
fn wait_delivers_a_recognized_event() {
    let c = Client::new(TransportType::Ws);
    let frame =
        br#"{"type":"message","payload":{"username":"u","message":"m","timestamp":"t"}}"#.to_vec();
    match c.wait_for_message(FrameEvent::Text(frame)) {
        WaitStep::Delivered(m) => assert_eq!(m.username, b"u".to_vec()),
        _ => panic!("a recognized chat event must be delivered"),
    }
}

#[test]
fn wait_skips_unrecognized_and_fails_malformed() {
    let c = Client::new(TransportType::Ws);
    // A well-formed envelope with an unrecognized tag is skipped ...
    let skip = c.wait_for_message(FrameEvent::Text(
        br#"{"type":"typing","payload":{}}"#.to_vec(),
    ));
    assert!(matches!(skip, WaitStep::Pending));
    // ... while a frame that fails to parse is a hard failure.
    let hard = c.wait_for_message(FrameEvent::Text(b"][".to_vec()));
    assert!(matches!(
        hard,
        WaitStep::Failed(ReceiveError::Malformed)
    ));
}

#[test]
fn wait_skips_non_textual_frames() {
    let c = Client::new(TransportType::Ws);
    assert!(matches!(
        c.wait_for_message(FrameEvent::NotText),
        WaitStep::Pending
    ));
}

#[test]
fn wait_fails_when_the_connection_closes() {
    let c = Client::new(TransportType::Ws);
    assert!(matches!(
        c.wait_for_message(FrameEvent::Closed),
        WaitStep::Failed(ReceiveError::Closed)
    ));
}

#[test]
fn usernames_follow_the_position() {
    assert_eq!(chatload::username_for(0), b"player-0".to_vec());
    assert_eq!(chatload::username_for(17), b"player-17".to_vec());
}

#[test]
fn room_names_carry_token_and_index() {
    let name = chatload::room_name(4);
    // six random token bytes, a dash, then the index
    assert_eq!(name.len(), 8);
    assert_eq!(&name[6..], b"-4");
    let other = chatload::room_name(123);
    assert_eq!(&other[6..], b"-123");
}
