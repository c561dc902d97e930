use mollysocket::FrameOutcome;
use mollysocket::SignalWebSocket;
use mollysocket::WebSocketMessage;
use mollysocket::WebSocketRequestMessage;

fn request(
    verb: Option<&str>,
    path: Option<&str>,
    id: Option<u64>,
    headers: Vec<&str>,
) -> WebSocketRequestMessage {
    WebSocketRequestMessage {
        verb: verb.map(|s| s.to_string()),
        path: path.map(|s| s.to_string()),
        body: None,
        headers: headers.into_iter().map(|s| s.to_string()).collect(),
        id,
    }
}

fn request_frame(request: WebSocketRequestMessage) -> WebSocketMessage {
    WebSocketMessage {
        kind: Some(1),
        request: Some(request),
        response: None,
    }
}

fn socket() -> SignalWebSocket {
    SignalWebSocket::try_new(
        "wss://example.org/v1/websocket".to_string(),
        "https://push.example.org/upload".to_string(),
    )
    .expect("both configured addresses are valid URLs")
}

fn assert_ignored(outcome: &FrameOutcome) {
    assert!(outcome.ack.is_none());
    assert!(!outcome.notify);
    assert!(outcome.timestamp.is_none());
}

#[test]
fn response_frame_is_ignored() {
    let ws = socket();
    let message = WebSocketMessage {
        kind: Some(2),
        request: None,
        response: None,
    };
    let outcome = ws.process_message(&message);
    assert_ignored(&outcome);
}

#[test]
fn unknown_or_absent_kind_is_ignored() {
    let ws = socket();
    for kind in [None, Some(0), Some(5), Some(-1)] {
        let message = WebSocketMessage {
            kind,
            request: Some(request(Some("PUT"), Some("/api/v1/message"), Some(7), vec![])),
            response: None,
        };
        let outcome = ws.process_message(&message);
        assert_ignored(&outcome);
    }
}

#[test]
fn request_frame_without_payload_is_ignored() {
    let ws = socket();
    let message = WebSocketMessage {
        kind: Some(1),
        request: None,
        response: None,
    };
    let outcome = ws.process_message(&message);
    assert_ignored(&outcome);
}

#[test]
fn deliverable_message_is_acknowledged_and_notifies() {
    let ws = socket();
    let message = request_frame(request(
        Some("PUT"),
        Some("/api/v1/message"),
        Some(42),
        vec!["X-Signal-Timestamp: 999"],
    ));
    let outcome = ws.process_message(&message);
    let ack = outcome.ack.expect("a deliverable-message envelope is acknowledged");
    assert_eq!(ack.id, Some(42));
    assert_eq!(ack.status, Some(200));
    assert_eq!(ack.message, Some("OK".to_string()));
    assert!(ack.headers.is_empty());
    assert!(ack.body.is_none());
    assert!(outcome.notify);
    assert_eq!(outcome.timestamp, Some("999".to_string()));
}

#[test]
fn queue_drained_gets_unknown_ack_and_no_notification() {
    let ws = socket();
    let message = request_frame(request(
        Some("PUT"),
        Some("/api/v1/queue/empty"),
        Some(3),
        vec![],
    ));
    let outcome = ws.process_message(&message);
    let ack = outcome.ack.expect("a recognizable request is acknowledged");
    assert_eq!(ack.id, Some(3));
    assert_eq!(ack.status, Some(400));
    assert_eq!(ack.message, Some("Unknown".to_string()));
    assert!(!outcome.notify);
    assert!(outcome.timestamp.is_none());
}

#[test]
fn unrecognized_request_gets_unknown_ack() {
    let ws = socket();
    let message = request_frame(request(Some("GET"), Some("/unknown"), None, vec![]));
    let outcome = ws.process_message(&message);
    let ack = outcome.ack.expect("a request with verb and path is acknowledged");
    assert_eq!(ack.id, None);
    assert_eq!(ack.status, Some(400));
    assert_eq!(ack.message, Some("Unknown".to_string()));
    assert!(ack.headers.is_empty());
    assert!(ack.body.is_none());
    assert!(!outcome.notify);
    assert!(outcome.timestamp.is_none());
}

#[test]
fn matching_is_exact_on_verb_and_path() {
    let ws = socket();
    for (verb, path) in [
        ("put", "/api/v1/message"),
        ("PUT", "/api/v1/message/"),
        ("PUT", "/api/v1/messages"),
        ("POST", "/api/v1/message"),
    ] {
        let message = request_frame(request(Some(verb), Some(path), Some(1), vec![]));
        let outcome = ws.process_message(&message);
        let ack = outcome.ack.expect("a request with verb and path is acknowledged");
        assert_eq!(ack.status, Some(400));
        assert!(!outcome.notify);
    }
}

#[test]
fn request_missing_verb_or_path_is_dropped() {
    let ws = socket();
    for (verb, path) in [
        (None, Some("/api/v1/message")),
        (Some("PUT"), None),
        (None, None),
    ] {
        let message = request_frame(request(verb, path, Some(9), vec![]));
        let outcome = ws.process_message(&message);
        assert_ignored(&outcome);
    }
}

#[test]
fn processing_twice_gives_identical_outcomes() {
    let ws = socket();
    let message = request_frame(request(
        Some("PUT"),
        Some("/api/v1/message"),
        Some(11),
        vec!["X-Signal-Timestamp: 4"],
    ));
    let first = ws.process_message(&message);
    let second = ws.process_message(&message);
    let first_ack = first.ack.expect("acknowledged");
    let second_ack = second.ack.expect("acknowledged");
    assert_eq!(first_ack.id, second_ack.id);
    assert_eq!(first_ack.status, second_ack.status);
    assert_eq!(first_ack.message, second_ack.message);
    assert_eq!(first_ack.headers, second_ack.headers);
    assert_eq!(first_ack.body, second_ack.body);
    assert_eq!(first.notify, second.notify);
    assert_eq!(first.timestamp, second.timestamp);
}
