use vstd::prelude::*;

verus! {

/// One decoded unit exchanged over the realtime connection: a frame envelope
/// tagged as request or response. Exactly one of `request` and `response` is
/// expected to be present, consistent with `kind`; absent or unknown tags make
/// the frame inert.
pub struct WebSocketMessage {
    pub kind: Option<i32>,
    pub request: Option<WebSocketRequestMessage>,
    pub response: Option<WebSocketResponseMessage>,
}

/// The request payload of a frame envelope. `verb` and `path` must both be
/// present for the request to be actionable; `id` is the correlation token
/// that any acknowledgement must echo.
pub struct WebSocketRequestMessage {
    pub verb: Option<String>,
    pub path: Option<String>,
    pub body: Option<Vec<u8>>,
    pub headers: Vec<String>,
    pub id: Option<u64>,
}

/// The response payload of a frame envelope: an HTTP-style status and reason
/// correlated to a request by `id`. Responses synthesized by this crate carry
/// no headers and no body.
pub struct WebSocketResponseMessage {
    pub id: Option<u64>,
    pub status: Option<u32>,
    pub message: Option<String>,
    pub headers: Vec<String>,
    pub body: Option<Vec<u8>>,
}

/// The tag values a frame envelope's `kind` field may decode to.
#[derive(PartialEq, Eq, Structural, Clone, Copy, Debug)]
pub enum MessageType {
    Unknown,
    Request,
    Response,
}

/// The wire encoding of the `kind` tag: 0 is `Unknown`, 1 is `Request`,
/// 2 is `Response`; every other value is undefined.
pub open spec fn spec_type_from_i32(value: i32) -> Option<MessageType> {
    if value == 0 {
        Some(MessageType::Unknown)
    } else if value == 1 {
        Some(MessageType::Request)
    } else if value == 2 {
        Some(MessageType::Response)
    } else {
        None
    }
}

/// Decode a `kind` tag from its wire value.
pub fn type_from_i32(value: i32) -> (result: Option<MessageType>)
    ensures
        result == spec_type_from_i32(value),
{
    if value == 0 {
        Some(MessageType::Unknown)
    } else if value == 1 {
        Some(MessageType::Request)
    } else if value == 2 {
        Some(MessageType::Response)
    } else {
        None
    }
}

} // verus!
