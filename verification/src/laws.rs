use vstd::prelude::*;

use crate::messages::WebSocketMessage;
use crate::messages::WebSocketRequestMessage;
use crate::messages::WebSocketResponseMessage;
use crate::socket::FrameOutcome;
use crate::socket::spec_is_signal_service_envelope;
use crate::socket::spec_is_socket_empty_request;
use crate::socket::spec_outcome_for;
use crate::socket::spec_request_outcome;

verus! {

/// Two optional strings hold the same text.
pub open spec fn opt_string_equiv(a: Option<String>, b: Option<String>) -> bool {
    match (a, b) {
        (Some(x), Some(y)) => x@ == y@,
        (None, None) => true,
        _ => false,
    }
}

/// Two acknowledgements say the same thing: same correlation id, same
/// status, same message text, same headers, same body.
pub open spec fn response_equiv(a: WebSocketResponseMessage, b: WebSocketResponseMessage) -> bool {
    &&& a.id == b.id
    &&& a.status == b.status
    &&& opt_string_equiv(a.message, b.message)
    &&& a.headers.deep_view() == b.headers.deep_view()
    &&& match (a.body, b.body) {
        (Some(x), Some(y)) => x@ == y@,
        (None, None) => true,
        _ => false,
    }
}

/// Two outcomes ask the transport for the same actions: the same
/// acknowledgement, the same notification decision, the same surfaced
/// timestamp.
pub open spec fn outcome_equiv(a: FrameOutcome, b: FrameOutcome) -> bool {
    &&& match (a.ack, b.ack) {
        (Some(x), Some(y)) => response_equiv(x, y),
        (None, None) => true,
        _ => false,
    }
    &&& a.notify == b.notify
    &&& opt_string_equiv(a.timestamp, b.timestamp)
}

/// A frame envelope tagged as a response is left alone: no acknowledgement
/// is sent and no notification is dispatched.
pub proof fn lemma_response_frame_ignored(message: WebSocketMessage, outcome: FrameOutcome)
    requires
        message.kind == Some(2i32),
        spec_outcome_for(message, outcome),
    ensures
        outcome.ack is None,
        !outcome.notify,
{
}

/// Every request with verb `PUT` and path `/api/v1/message` is acknowledged
/// with its own correlation id, status 200 and message "OK", and asks for
/// exactly one notification dispatch.
pub proof fn lemma_deliverable_message_acknowledged(
    request: WebSocketRequestMessage,
    outcome: FrameOutcome,
)
    requires
        spec_is_signal_service_envelope(request),
        spec_request_outcome(request, outcome),
    ensures
        outcome.ack matches Some(response) && {
            &&& response.id == request.id
            &&& response.status == Some(200u32)
            &&& response.message matches Some(text) && text@ == "OK"@
        },
        outcome.notify,
{
}

/// Every request with verb `PUT` and path `/api/v1/queue/empty` is
/// acknowledged with its own correlation id, status 400 and message
/// "Unknown", and asks for no notification: the baseline policy routes the
/// queue-drained category no further.
pub proof fn lemma_queue_drained_acknowledged(
    request: WebSocketRequestMessage,
    outcome: FrameOutcome,
)
    requires
        spec_is_socket_empty_request(request),
        spec_request_outcome(request, outcome),
    ensures
        outcome.ack matches Some(response) && {
            &&& response.id == request.id
            &&& response.status == Some(400u32)
            &&& response.message matches Some(text) && text@ == "Unknown"@
        },
        !outcome.notify,
{
    reveal_strlit("/api/v1/queue/empty");
    reveal_strlit("/api/v1/message");
    assert(("/api/v1/queue/empty"@).len() != ("/api/v1/message"@).len());
    assert(!spec_is_signal_service_envelope(request));
}

/// A request missing its verb or its path is dropped before recognition: no
/// acknowledgement and no notification.
pub proof fn lemma_partial_request_dropped(
    request: WebSocketRequestMessage,
    outcome: FrameOutcome,
)
    requires
        request.verb is None || request.path is None,
        spec_request_outcome(request, outcome),
    ensures
        outcome.ack is None,
        !outcome.notify,
{
}

/// Processing the same frame envelope twice produces identical outcomes: the
/// same acknowledgement text each time and the same notification decision,
/// with no deduplication at this layer.
pub proof fn lemma_processing_deterministic(
    message: WebSocketMessage,
    first: FrameOutcome,
    second: FrameOutcome,
)
    requires
        spec_outcome_for(message, first),
        spec_outcome_for(message, second),
    ensures
        outcome_equiv(first, second),
{
    if message.kind == Some(1i32) && message.request is Some {
        let request = message.request->Some_0;
        if request.verb is Some && request.path is Some {
            let a = first.ack->Some_0;
            let b = second.ack->Some_0;
            assert(a.headers.deep_view() =~= b.headers.deep_view());
        }
    }
}

} // verus!
