use vstd::prelude::*;

use crate::headers::find_header;
use crate::headers::spec_find_header;
use crate::messages::MessageType;
use crate::messages::WebSocketMessage;
use crate::messages::WebSocketRequestMessage;
use crate::messages::WebSocketResponseMessage;
use crate::messages::type_from_i32;
use crate::strutil::str_eq;
use crate::transport::url_is_valid;
use crate::transport::url_parses;

verus! {

/// One connection's bridge state: the realtime endpoint it targets, the
/// webhook told about deliverable messages, and the send handle the transport
/// installs once connected. Stateless per frame: nothing here changes while
/// frames are processed.
pub struct SignalWebSocket {
    pub connect_addr: String,
    pub push_endpoint: String,
    pub tx: Option<
        futures_channel::mpsc::UnboundedSender<tokio_tungstenite::tungstenite::Message>,
    >,
}

/// What processing one frame envelope asks of the transport: the
/// acknowledgement to send back, if any; whether to dispatch one notification
/// to the webhook; and the server-delivered timestamp extracted from a
/// deliverable-message envelope, surfaced for the caller and not acted on
/// here.
pub struct FrameOutcome {
    pub ack: Option<WebSocketResponseMessage>,
    pub notify: bool,
    pub timestamp: Option<String>,
}

/// A request is a deliverable-message envelope: verb `PUT` and path
/// `/api/v1/message`, both matched exactly and case-sensitively.
pub open spec fn spec_is_signal_service_envelope(request: WebSocketRequestMessage) -> bool {
    &&& request.verb matches Some(verb) && verb@ == "PUT"@
    &&& request.path matches Some(path) && path@ == "/api/v1/message"@
}

/// A request is a queue-drained envelope: verb `PUT` and path
/// `/api/v1/queue/empty`, both matched exactly and case-sensitively.
pub open spec fn spec_is_socket_empty_request(request: WebSocketRequestMessage) -> bool {
    &&& request.verb matches Some(verb) && verb@ == "PUT"@
    &&& request.path matches Some(path) && path@ == "/api/v1/queue/empty"@
}

/// The acknowledgement owed to a request: the request's correlation id copied
/// verbatim, status 200 with message "OK" for a deliverable-message envelope,
/// status 400 with message "Unknown" for everything else, and never headers
/// or a body.
pub open spec fn spec_ack_for(
    request: WebSocketRequestMessage,
    response: WebSocketResponseMessage,
) -> bool {
    &&& response.id == request.id
    &&& response.headers@.len() == 0
    &&& response.body is None
    &&& if spec_is_signal_service_envelope(request) {
        &&& response.status == Some(200u32)
        &&& response.message matches Some(message) && message@ == "OK"@
    } else {
        &&& response.status == Some(400u32)
        &&& response.message matches Some(message) && message@ == "Unknown"@
    }
}

/// An outcome that asks nothing of the transport.
pub open spec fn spec_ignored(outcome: FrameOutcome) -> bool {
    &&& outcome.ack is None
    &&& !outcome.notify
    &&& outcome.timestamp is None
}

/// The timestamp an outcome must surface: the extracted header value for a
/// deliverable-message envelope, nothing otherwise.
pub open spec fn spec_timestamp_outcome(
    request: WebSocketRequestMessage,
    outcome: FrameOutcome,
) -> bool {
    if spec_is_signal_service_envelope(request) {
        match spec_find_header(request.headers.deep_view()) {
            Some(value) => outcome.timestamp matches Some(found) && found@ == value,
            None => outcome.timestamp is None,
        }
    } else {
        outcome.timestamp is None
    }
}

/// The outcome owed to a request payload: a request missing its verb or its
/// path is dropped silently; any other request is acknowledged exactly once,
/// and notifies exactly when it is a deliverable-message envelope.
pub open spec fn spec_request_outcome(
    request: WebSocketRequestMessage,
    outcome: FrameOutcome,
) -> bool {
    if request.verb is Some && request.path is Some {
        &&& outcome.ack matches Some(response) && spec_ack_for(request, response)
        &&& outcome.notify == spec_is_signal_service_envelope(request)
        &&& spec_timestamp_outcome(request, outcome)
    } else {
        spec_ignored(outcome)
    }
}

/// The outcome owed to a frame envelope: only a frame tagged as a request and
/// carrying a request payload is processed; a response tag, an absent or
/// unknown tag, or an absent payload leaves the frame ignored.
pub open spec fn spec_outcome_for(message: WebSocketMessage, outcome: FrameOutcome) -> bool {
    if message.kind == Some(1i32) && message.request is Some {
        spec_request_outcome(message.request->Some_0, outcome)
    } else {
        spec_ignored(outcome)
    }
}

impl FrameOutcome {
    /// The outcome of a frame that is ignored.
    pub fn ignored() -> (outcome: FrameOutcome)
        ensures
            spec_ignored(outcome),
    {
        FrameOutcome { ack: None, notify: false, timestamp: None }
    }
}

impl SignalWebSocket {
    /// Build a bridge for one connection from its two configured addresses.
    /// The addresses must be valid URLs; `try_new` checks them first.
    pub fn new(connect_addr: String, push_endpoint: String) -> (socket: Self)
        requires
            url_parses(connect_addr@),
            url_parses(push_endpoint@),
        ensures
            socket.wf(),
            socket.connect_addr@ == connect_addr@,
            socket.push_endpoint@ == push_endpoint@,
            socket.tx is None,
    {
        SignalWebSocket { connect_addr, push_endpoint, tx: None }
    }

    /// Build a bridge for one connection, checking both configured addresses:
    /// `None` exactly when the realtime address or the webhook address is not
    /// a valid URL, so that a misconfiguration aborts startup instead of
    /// surfacing per message.
    pub fn try_new(connect_addr: String, push_endpoint: String) -> (socket: Option<Self>)
        ensures
            socket is Some <==> url_parses(connect_addr@) && url_parses(push_endpoint@),
            socket matches Some(s) ==> {
                &&& s.wf()
                &&& s.connect_addr@ == connect_addr@
                &&& s.push_endpoint@ == push_endpoint@
                &&& s.tx is None
            },
    {
        if url_is_valid(connect_addr.as_str()) && url_is_valid(push_endpoint.as_str()) {
            Some(Self::new(connect_addr, push_endpoint))
        } else {
            None
        }
    }

    /// Both configured addresses are valid URLs; established at construction
    /// and never changed afterwards.
    pub open spec fn wf(&self) -> bool {
        &&& url_parses(self.connect_addr@)
        &&& url_parses(self.push_endpoint@)
    }

    /// The realtime connection's target address.
    pub fn get_url(&self) -> (url: &String)
        ensures
            url == &self.connect_addr,
    {
        &self.connect_addr
    }

    /// The webhook address notified on deliverable-message events.
    pub fn get_push_endpoint(&self) -> (url: &String)
        ensures
            url == &self.push_endpoint,
    {
        &self.push_endpoint
    }

    /// The send handle toward the realtime connection, present once the
    /// transport has connected.
    pub fn get_tx(&self) -> (tx: &Option<
        futures_channel::mpsc::UnboundedSender<tokio_tungstenite::tungstenite::Message>,
    >)
        ensures
            tx == &self.tx,
    {
        &self.tx
    }

    /// Install or clear the send handle; the transport calls this on connect
    /// and disconnect. Nothing else changes.
    pub fn set_tx(
        &mut self,
        tx: Option<
            futures_channel::mpsc::UnboundedSender<tokio_tungstenite::tungstenite::Message>,
        >,
    )
        ensures
            final(self).tx == tx,
            final(self).connect_addr == old(self).connect_addr,
            final(self).push_endpoint == old(self).push_endpoint,
    {
        self.tx = tx;
    }

    /// Whether a request is a deliverable-message envelope.
    pub fn is_signal_service_envelope(&self, request: &WebSocketRequestMessage) -> (result: bool)
        ensures
            result == spec_is_signal_service_envelope(*request),
    {
        match (&request.verb, &request.path) {
            (Some(verb), Some(path)) => {
                str_eq(verb.as_str(), "PUT") && str_eq(path.as_str(), "/api/v1/message")
            },
            _ => false,
        }
    }

    /// Whether a request is a queue-drained envelope. Recognized as its own
    /// category, though the baseline policy routes it no further than the 400
    /// acknowledgement.
    pub fn is_socket_empty_request(&self, request: &WebSocketRequestMessage) -> (result: bool)
        ensures
            result == spec_is_socket_empty_request(*request),
    {
        match (&request.verb, &request.path) {
            (Some(verb), Some(path)) => {
                str_eq(verb.as_str(), "PUT") && str_eq(path.as_str(), "/api/v1/queue/empty")
            },
            _ => false,
        }
    }

    /// Synthesize the acknowledgement owed to a request: id copied verbatim,
    /// 200 "OK" for a deliverable-message envelope, 400 "Unknown" otherwise,
    /// never headers or a body.
    pub fn create_websocket_response(
        &self,
        request: &WebSocketRequestMessage,
    ) -> (response: WebSocketResponseMessage)
        ensures
            spec_ack_for(*request, response),
    {
        if self.is_signal_service_envelope(request) {
            WebSocketResponseMessage {
                id: request.id,
                status: Some(200),
                message: Some("OK".to_owned()),
                headers: Vec::new(),
                body: None,
            }
        } else {
            WebSocketResponseMessage {
                id: request.id,
                status: Some(400),
                message: Some("Unknown".to_owned()),
                headers: Vec::new(),
                body: None,
            }
        }
    }

    /// Process one request payload: drop it silently when its verb or path is
    /// absent; otherwise acknowledge it, ask for one notification exactly
    /// when it is a deliverable-message envelope, and surface the extracted
    /// timestamp for such an envelope.
    pub fn process_request(&self, request: &WebSocketRequestMessage) -> (outcome: FrameOutcome)
        ensures
            spec_request_outcome(*request, outcome),
    {
        if request.verb.is_some() && request.path.is_some() {
            let ack = self.create_websocket_response(request);
            let notify = self.is_signal_service_envelope(request);
            let timestamp = if notify {
                find_header(request)
            } else {
                None
            };
            FrameOutcome { ack: Some(ack), notify, timestamp }
        } else {
            FrameOutcome::ignored()
        }
    }

    /// Process one frame envelope: a request frame with a payload is handed
    /// to `process_request`; a response frame, an unknown or absent tag, or
    /// an absent payload is ignored.
    pub fn process_message(&self, message: &WebSocketMessage) -> (outcome: FrameOutcome)
        ensures
            spec_outcome_for(*message, outcome),
    {
        match message.kind {
            Some(value) => match type_from_i32(value) {
                Some(MessageType::Request) => match &message.request {
                    Some(request) => self.process_request(request),
                    None => FrameOutcome::ignored(),
                },
                _ => FrameOutcome::ignored(),
            },
            None => FrameOutcome::ignored(),
        }
    }
}

} // verus!
