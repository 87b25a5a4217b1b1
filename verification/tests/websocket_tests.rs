use rusty_webex::error::WebSocketError;
use rusty_webex::types::DeviceDetails;
use rusty_webex::websocket::{
    authorization_frame, authorization_message, bearer_token, handshake_for_scheme, CloseStep,
    ConnectionState, Handshake, InboundFrame, ListenStep, StreamEvent, WebSocketClient,
};

fn listening() -> WebSocketClient {
    let mut client = WebSocketClient::new(true);
    assert_eq!(client.connect("wss://example.com/socket".to_string()), Ok(Handshake::Secure));
    assert_eq!(client.handshake_finished(true), Ok(()));
    assert!(client.authorize("token").is_ok());
    assert_eq!(client.state(), ConnectionState::Listening);
    client
}

fn text(s: &str) -> StreamEvent {
    StreamEvent::Frame(InboundFrame::Text(s.to_string()))
}

#[test]
fn new_transport_is_disconnected() {
    let client = WebSocketClient::new(false);
    assert_eq!(client.state(), ConnectionState::Disconnected);
    assert!(!client.is_secure());
    assert!(WebSocketClient::new(true).is_secure());
}

#[test]
fn scheme_selects_the_handshake() {
    assert_eq!(handshake_for_scheme(&Some("wss".to_string())), Some(Handshake::Secure));
    assert_eq!(handshake_for_scheme(&Some("ws".to_string())), Some(Handshake::Plain));
    assert_eq!(handshake_for_scheme(&Some("https".to_string())), None);
    assert_eq!(handshake_for_scheme(&Some("".to_string())), None);
    assert_eq!(handshake_for_scheme(&None), None);
}

#[test]
fn connect_reads_the_scheme_of_the_url() {
    let mut secure = WebSocketClient::new(false);
    assert_eq!(secure.connect("wss://example.com/a".to_string()), Ok(Handshake::Secure));
    assert_eq!(secure.state(), ConnectionState::Connecting);
    assert!(secure.is_secure());

    let mut plain = WebSocketClient::new(true);
    assert_eq!(plain.connect("WS://example.com:8080/a".to_string()), Ok(Handshake::Plain));
    assert_eq!(plain.state(), ConnectionState::Connecting);
    assert!(!plain.is_secure());
}

#[test]
fn connect_fails_on_other_schemes_and_on_no_url() {
    let mut other = WebSocketClient::new(true);
    assert_eq!(other.connect("https://example.com".to_string()), Err(WebSocketError::ConnectFailed));
    assert_eq!(other.state(), ConnectionState::Closed);
    assert!(other.is_secure());

    let mut none = WebSocketClient::new(false);
    assert_eq!(none.connect("not a url".to_string()), Err(WebSocketError::ConnectFailed));
    assert_eq!(none.state(), ConnectionState::Closed);
}

#[test]
fn connect_is_valid_only_from_disconnected() {
    let mut client = listening();
    assert_eq!(client.connect("wss://example.com".to_string()), Err(WebSocketError::ConnectFailed));
    assert_eq!(client.state(), ConnectionState::Listening);
    let mut connecting = WebSocketClient::new(true);
    assert!(connecting.connect("ws://example.com".to_string()).is_ok());
    assert_eq!(connecting.connect("ws://example.com".to_string()), Err(WebSocketError::ConnectFailed));
    assert_eq!(connecting.state(), ConnectionState::Connecting);
}

#[test]
fn failed_handshake_closes_the_transport() {
    let mut client = WebSocketClient::new(true);
    assert!(client.connect("wss://example.com".to_string()).is_ok());
    assert_eq!(client.handshake_finished(false), Err(WebSocketError::ConnectFailed));
    assert_eq!(client.state(), ConnectionState::Closed);
    assert_eq!(client.handshake_finished(true), Err(WebSocketError::NotDefined));
    assert_eq!(client.state(), ConnectionState::Closed);
}

#[test]
fn send_before_listening_is_not_ready() {
    let mut client = WebSocketClient::new(true);
    assert_eq!(client.send("hello".to_string()), Err(WebSocketError::NotDefined));
    assert!(client.connect("wss://example.com".to_string()).is_ok());
    assert_eq!(client.send("hello".to_string()), Err(WebSocketError::NotDefined));
    assert!(client.handshake_finished(true).is_ok());
    assert_eq!(client.state(), ConnectionState::Authenticating);
    assert_eq!(client.send("hello".to_string()), Err(WebSocketError::NotDefined));
    assert!(client.authorize("token").is_ok());
    assert_eq!(client.send("hello".to_string()), Ok("hello".to_string()));
}

#[test]
fn send_after_close_is_not_ready() {
    let mut client = listening();
    assert_eq!(client.close(), CloseStep::SendClose);
    assert_eq!(client.send("x".to_string()), Err(WebSocketError::NotDefined));
    client.finish_close();
    assert_eq!(client.send("x".to_string()), Err(WebSocketError::NotDefined));
}

#[test]
fn authorize_needs_an_open_socket() {
    let mut client = WebSocketClient::new(true);
    assert_eq!(client.authorize("token"), Err(WebSocketError::NotDefined));
    assert_eq!(client.state(), ConnectionState::Disconnected);
    let mut open = listening();
    assert_eq!(open.authorize("token"), Err(WebSocketError::NotDefined));
    assert_eq!(open.state(), ConnectionState::Listening);
}

#[test]
fn bearer_token_prefixes_the_credential() {
    assert_eq!(bearer_token("abc"), "Bearer abc");
    assert_eq!(bearer_token(""), "Bearer ");
}

#[test]
fn authorization_frame_has_the_envelope() {
    assert_eq!(
        authorization_frame("\"id-1\"", "\"Bearer abc\""),
        "{\"data\":{\"token\":\"Bearer abc\"},\"id\":\"id-1\",\"type\":\"authorization\"}"
    );
}

#[test]
fn authorization_message_quotes_and_escapes() {
    assert_eq!(
        authorization_message("id-1", "abc"),
        "{\"data\":{\"token\":\"Bearer abc\"},\"id\":\"id-1\",\"type\":\"authorization\"}"
    );
    assert_eq!(
        authorization_message("i\"d", "a\\b\n"),
        "{\"data\":{\"token\":\"Bearer a\\\\b\\n\"},\"id\":\"i\\\"d\",\"type\":\"authorization\"}"
    );
}

#[test]
fn authorization_message_is_the_json_of_the_envelope() {
    let frame = authorization_message("id-1", "s3cr\"et");
    let value: serde_json::Value = serde_json::from_str(&frame).unwrap();
    assert_eq!(value["id"], serde_json::Value::String("id-1".to_string()));
    assert_eq!(value["type"], serde_json::Value::String("authorization".to_string()));
    assert_eq!(value["data"]["token"], serde_json::Value::String("Bearer s3cr\"et".to_string()));
    assert_eq!(frame, value.to_string());
}

#[test]
fn authorize_sends_a_fresh_identifier() {
    let mut first = WebSocketClient::new(true);
    assert!(first.connect("wss://example.com".to_string()).is_ok());
    assert!(first.handshake_finished(true).is_ok());
    let frame = first.authorize("tok").unwrap();
    assert_eq!(first.state(), ConnectionState::Listening);
    let value: serde_json::Value = serde_json::from_str(&frame).unwrap();
    let id = value["id"].as_str().unwrap().to_string();
    assert_eq!(id.len(), 36);
    let bytes = id.as_bytes();
    for (i, b) in bytes.iter().enumerate() {
        if i == 8 || i == 13 || i == 18 || i == 23 {
            assert_eq!(*b, b'-');
        } else {
            assert!(b.is_ascii_digit() || (b'a'..=b'f').contains(b));
        }
    }
    assert_eq!(bytes[14], b'4');
    assert!([b'8', b'9', b'a', b'b'].contains(&bytes[19]));
    assert_eq!(value["data"]["token"].as_str(), Some("Bearer tok"));

    let mut second = WebSocketClient::new(true);
    assert!(second.connect("wss://example.com".to_string()).is_ok());
    assert!(second.handshake_finished(true).is_ok());
    assert_ne!(second.authorize("tok").unwrap(), frame);
}

#[test]
fn authorize_with_id_uses_the_identifier() {
    let mut client = WebSocketClient::new(true);
    assert!(client.connect("wss://example.com".to_string()).is_ok());
    assert!(client.handshake_finished(true).is_ok());
    assert_eq!(
        client.authorize_with_id("id-9", "tok"),
        Ok("{\"data\":{\"token\":\"Bearer tok\"},\"id\":\"id-9\",\"type\":\"authorization\"}".to_string())
    );
    assert_eq!(client.state(), ConnectionState::Listening);
}

#[test]
fn text_frames_are_delivered() {
    let mut client = listening();
    assert_eq!(client.listen_step(true, text("hi")), ListenStep::Deliver("hi".to_string()));
    assert_eq!(client.state(), ConnectionState::Listening);
}

#[test]
fn other_frames_are_passed_over() {
    let mut client = listening();
    for frame in [
        InboundFrame::Binary(vec![1, 2]),
        InboundFrame::Ping(vec![]),
        InboundFrame::Pong(vec![3]),
        InboundFrame::ControlFrame,
    ] {
        assert_eq!(client.listen_step(true, StreamEvent::Frame(frame)), ListenStep::Continue);
        assert_eq!(client.state(), ConnectionState::Listening);
    }
    assert_eq!(client.listen_step(true, StreamEvent::Idle), ListenStep::Continue);
    assert_eq!(client.state(), ConnectionState::Listening);
}

#[test]
fn close_frame_while_listening_closes_without_delivery() {
    let mut client = listening();
    let step = client.listen_step(true, StreamEvent::Frame(InboundFrame::Close));
    assert_eq!(step, ListenStep::Stop(Ok(())));
    assert_eq!(client.state(), ConnectionState::Closing);
    client.finish_close();
    assert_eq!(client.state(), ConnectionState::Closed);

    let mut batch = listening();
    let (delivered, result) =
        batch.listen_for_messages(true, vec![StreamEvent::Frame(InboundFrame::Close), text("late")]);
    assert!(delivered.is_empty());
    assert_eq!(result, Some(Ok(())));
    assert_eq!(batch.state(), ConnectionState::Closing);
    batch.finish_close();
    assert_eq!(batch.state(), ConnectionState::Closed);
}

#[test]
fn failed_read_is_peer_away() {
    let mut client = listening();
    assert_eq!(
        client.listen_step(true, StreamEvent::Failed),
        ListenStep::Stop(Err(WebSocketError::AwayError))
    );
    assert_eq!(client.state(), ConnectionState::Closing);
}

#[test]
fn shutdown_flag_stops_the_loop() {
    let mut client = listening();
    assert_eq!(client.listen_step(false, text("hi")), ListenStep::Stop(Ok(())));
    assert_eq!(client.state(), ConnectionState::Listening);
    let (delivered, result) = client.listen_for_messages(false, vec![text("a"), text("b")]);
    assert!(delivered.is_empty());
    assert_eq!(result, Some(Ok(())));
}

#[test]
fn listening_outside_listening_is_not_ready() {
    let mut client = WebSocketClient::new(true);
    assert_eq!(
        client.listen_step(true, text("hi")),
        ListenStep::Stop(Err(WebSocketError::NotDefined))
    );
    assert_eq!(client.state(), ConnectionState::Disconnected);
    let (delivered, result) = client.listen_for_messages(true, vec![text("a")]);
    assert!(delivered.is_empty());
    assert_eq!(result, Some(Err(WebSocketError::NotDefined)));
}

#[test]
fn batch_delivers_texts_in_order_until_the_stop() {
    let mut client = listening();
    let events = vec![
        text("one"),
        StreamEvent::Frame(InboundFrame::Ping(vec![])),
        text("two"),
        StreamEvent::Idle,
        text("three"),
        StreamEvent::Failed,
        text("four"),
    ];
    let (delivered, result) = client.listen_for_messages(true, events);
    assert_eq!(delivered, vec!["one", "two", "three"]);
    assert_eq!(result, Some(Err(WebSocketError::AwayError)));
    assert_eq!(client.state(), ConnectionState::Closing);
}

#[test]
fn batch_without_stop_keeps_listening() {
    let mut client = listening();
    let (delivered, result) = client.listen_for_messages(true, vec![text("one"), text("two")]);
    assert_eq!(delivered, vec!["one", "two"]);
    assert_eq!(result, None);
    assert_eq!(client.state(), ConnectionState::Listening);
    let (none, still) = client.listen_for_messages(true, Vec::new());
    assert!(none.is_empty());
    assert_eq!(still, None);
}

#[test]
fn close_is_a_no_op_unless_listening() {
    let mut client = WebSocketClient::new(true);
    assert_eq!(client.close(), CloseStep::Nothing);
    assert_eq!(client.state(), ConnectionState::Disconnected);
    client.finish_close();
    assert_eq!(client.state(), ConnectionState::Disconnected);

    let mut open = listening();
    assert_eq!(open.close(), CloseStep::SendClose);
    assert_eq!(open.state(), ConnectionState::Closing);
    assert_eq!(open.close(), CloseStep::Nothing);
    open.finish_close();
    assert_eq!(open.state(), ConnectionState::Closed);
    assert_eq!(open.close(), CloseStep::Nothing);
    open.finish_close();
    assert_eq!(open.state(), ConnectionState::Closed);
}

#[test]
fn transport_error_messages() {
    assert_eq!(WebSocketError::AwayError.message(), "Web Socket went away.");
    assert_eq!(
        WebSocketError::NotDefined.message(),
        "Cannot performed the function as no stream is defined."
    );
    assert_eq!(WebSocketError::ConnectFailed.message(), "Failed to connect to the web socket.");
}

fn device(url: Option<&str>) -> DeviceDetails {
    DeviceDetails {
        device_name: "rust-websocket-client".to_string(),
        device_type: "DESKTOP".to_string(),
        localized_model: "rust".to_string(),
        model: "rust".to_string(),
        name: "rust-spark-client".to_string(),
        system_name: "rust-spark-client".to_string(),
        system_version: "0.1".to_string(),
        web_socket_url: url.map(|u| u.to_string()),
    }
}

#[test]
fn connect_device_uses_the_endpoint_of_the_record() {
    let mut secure = WebSocketClient::new(true);
    assert_eq!(secure.connect_device(&device(Some("wss://mercury.example/socket"))), Ok(Handshake::Secure));
    assert_eq!(secure.state(), ConnectionState::Connecting);

    let mut plain = WebSocketClient::new(true);
    assert_eq!(plain.connect_device(&device(Some("ws://localhost:9000"))), Ok(Handshake::Plain));
    assert!(!plain.is_secure());

    let mut none = WebSocketClient::new(true);
    assert_eq!(none.connect_device(&device(None)), Err(WebSocketError::ConnectFailed));
    assert_eq!(none.state(), ConnectionState::Closed);

    let mut busy = listening();
    assert_eq!(busy.connect_device(&device(None)), Err(WebSocketError::ConnectFailed));
    assert_eq!(busy.state(), ConnectionState::Listening);
}

#[test]
fn empty_batch_outside_listening_is_not_ready() {
    let mut fresh = WebSocketClient::new(true);
    assert_eq!(
        fresh.listen_for_messages(true, Vec::new()),
        (Vec::new(), Some(Err(WebSocketError::NotDefined)))
    );
    assert_eq!(
        fresh.listen_for_messages(false, Vec::new()),
        (Vec::new(), Some(Err(WebSocketError::NotDefined)))
    );
    assert_eq!(fresh.state(), ConnectionState::Disconnected);

    let mut closed = listening();
    assert_eq!(closed.close(), CloseStep::SendClose);
    closed.finish_close();
    assert_eq!(
        closed.listen_for_messages(true, Vec::new()),
        (Vec::new(), Some(Err(WebSocketError::NotDefined)))
    );
    assert_eq!(closed.state(), ConnectionState::Closed);
}

#[test]
fn empty_batch_with_the_flag_down_stops() {
    let mut client = listening();
    assert_eq!(client.listen_for_messages(false, Vec::new()), (Vec::new(), Some(Ok(()))));
    assert_eq!(client.state(), ConnectionState::Listening);
    assert_eq!(client.listen_for_messages(true, Vec::new()), (Vec::new(), None));
}

#[test]
fn flag_that_goes_down_between_batches_stops_before_the_next_read() {
    let mut client = listening();
    let (delivered, result) = client.listen_for_messages(true, vec![text("one"), text("two")]);
    assert_eq!(delivered, vec!["one", "two"]);
    assert_eq!(result, None);
    let (delivered, result) = client.listen_for_messages(false, vec![text("three")]);
    assert!(delivered.is_empty());
    assert_eq!(result, Some(Ok(())));
    assert_eq!(client.state(), ConnectionState::Listening);
    assert_eq!(client.close(), CloseStep::SendClose);
}

#[test]
fn before_read_tests_state_then_flag() {
    let fresh = WebSocketClient::new(true);
    assert_eq!(fresh.before_read(true), Some(Err(WebSocketError::NotDefined)));
    assert_eq!(fresh.before_read(false), Some(Err(WebSocketError::NotDefined)));
    let mut client = listening();
    assert_eq!(client.before_read(true), None);
    assert_eq!(client.before_read(false), Some(Ok(())));
    assert_eq!(client.close(), CloseStep::SendClose);
    assert_eq!(client.before_read(true), Some(Err(WebSocketError::NotDefined)));
    assert_eq!(client.before_read(false), Some(Err(WebSocketError::NotDefined)));
}

#[test]
fn batches_follow_each_other() {
    let first = vec![text("one"), StreamEvent::Idle];
    let second = vec![text("two"), StreamEvent::Frame(InboundFrame::Close), text("three")];
    let mut split = listening();
    let (mut delivered, result) = split.listen_for_messages(true, first.clone());
    assert_eq!(result, None);
    let (more, result) = split.listen_for_messages(true, second.clone());
    delivered.extend(more);
    let mut whole = listening();
    let mut both = first;
    both.extend(second);
    assert_eq!(whole.listen_for_messages(true, both), (delivered, result));
    assert_eq!(whole.state(), split.state());
    assert_eq!(result, Some(Ok(())));
}
