use mollysocket::MessageType;
use mollysocket::SignalWebSocket;
use mollysocket::messages::type_from_i32;
use mollysocket::notify::notification_body;
use mollysocket::notify::notification_content_type;
use tokio_tungstenite::tungstenite::Message;

#[test]
fn try_new_accepts_valid_urls() {
    let ws = SignalWebSocket::try_new(
        "wss://chat.example.org/v1/websocket?login=x".to_string(),
        "https://push.example.org/FCM?v2&token=y".to_string(),
    );
    assert!(ws.is_some());
}

#[test]
fn try_new_rejects_invalid_urls() {
    assert!(SignalWebSocket::try_new(
        "not a url".to_string(),
        "https://push.example.org/upload".to_string(),
    )
    .is_none());
    assert!(SignalWebSocket::try_new(
        "wss://chat.example.org/v1/websocket".to_string(),
        "still not a url".to_string(),
    )
    .is_none());
}

#[test]
fn getters_return_configured_addresses() {
    let ws = SignalWebSocket::new(
        "wss://chat.example.org/v1/websocket".to_string(),
        "https://push.example.org/upload".to_string(),
    );
    assert_eq!(ws.get_url().as_str(), "wss://chat.example.org/v1/websocket");
    assert_eq!(ws.get_push_endpoint().as_str(), "https://push.example.org/upload");
    assert!(ws.get_tx().is_none());
}

#[test]
fn set_tx_installs_and_clears_the_send_handle() {
    let mut ws = SignalWebSocket::new(
        "wss://chat.example.org/v1/websocket".to_string(),
        "https://push.example.org/upload".to_string(),
    );
    let (tx, _rx) = futures_channel::mpsc::unbounded::<Message>();
    ws.set_tx(Some(tx));
    assert!(ws.get_tx().is_some());
    ws.set_tx(None);
    assert!(ws.get_tx().is_none());
}

#[test]
fn notification_signal_is_fixed() {
    assert_eq!(notification_body(), "{\"type\":\"request\"}");
    assert_eq!(notification_content_type(), "application/json");
}

#[test]
fn kind_tag_decodes_from_wire_values() {
    assert_eq!(type_from_i32(0), Some(MessageType::Unknown));
    assert_eq!(type_from_i32(1), Some(MessageType::Request));
    assert_eq!(type_from_i32(2), Some(MessageType::Response));
    assert_eq!(type_from_i32(3), None);
    assert_eq!(type_from_i32(-1), None);
}
