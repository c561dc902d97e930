pub mod headers;
pub mod laws;
pub mod messages;
pub mod notify;
pub mod socket;
pub mod strutil;
pub mod transport;

pub use messages::MessageType;
pub use messages::WebSocketMessage;
pub use messages::WebSocketRequestMessage;
pub use messages::WebSocketResponseMessage;
pub use socket::FrameOutcome;
pub use socket::SignalWebSocket;
