//! The receiver loop: it owns the read half of the socket.
//!
//! One round of the loop first looks at its control queue, for the close
//! sentinel, and then waits for a frame. A text frame is read as a
//! notification envelope first. A notification goes to the dispatch loop; every
//! other text frame goes to the caller that waits for an answer, as the
//! document it holds or, where it holds none, as the message of
//! `MessageReceiveError`.

use crate::config::{Config, Timeout};
use crate::errors::WebSocketError;
use crate::json::{json_of_text, read_json, Json, JsonValue};
use crate::listeners::LoopState;
use crate::message_channel::{is_close_sentinel, WebsocketCloseRequest};
use crate::responses::{envelope_of, ChainResponse};
use vstd::prelude::*;
use vstd::utf8::{decode_utf8, valid_utf8};

verus! {

/// The kind of a frame, as the WebSocket protocol numbers it.
#[derive(Debug, Clone, Copy, PartialEq, Eq, Structural)]
pub enum OpCode {
    Continuation,
    Text,
    Binary,
    Close,
    Ping,
    Pong,
}

/// A frame that the transport received.
#[derive(Debug)]
pub struct Frame {
    pub opcode: OpCode,
    pub payload: Vec<u8>,
}

/// What one wait for a frame brought.
#[derive(Debug)]
pub enum FramePoll {
    /// No frame arrived within the receive timeout.
    TimedOut,
    /// The transport reported an error.
    Failed,
    /// A frame arrived.
    Arrived(Frame),
}

/// Where a frame goes.
#[derive(Debug, PartialEq)]
pub enum Delivery {
    /// Nowhere: the frame is dropped.
    Nothing,
    /// To the caller that waits for an answer.
    Response(Json),
    /// To the dispatch loop, for the callback with the given id.
    Notification(u64, Json),
}

/// The mathematical value of a [`Delivery`].
pub ghost enum DeliveryValue {
    Nothing,
    Response(JsonValue),
    Notification(u64, JsonValue),
}

impl View for Delivery {
    type V = DeliveryValue;

    open spec fn view(&self) -> DeliveryValue {
        match self {
            Delivery::Nothing => DeliveryValue::Nothing,
            Delivery::Response(doc) => DeliveryValue::Response(doc@),
            Delivery::Notification(id, body) => DeliveryValue::Notification(*id, body@),
        }
    }
}

/// Whether a document is a notification: an envelope whose method is `notice`.
pub open spec fn is_notice(doc: JsonValue) -> bool {
    envelope_of(doc) matches Some(envelope) && envelope.is_notice()
}

/// Where a document goes. A notification with a callback id and a body goes to
/// the dispatch loop, a notification that lacks either is dropped, and every
/// other document goes to the caller, unchanged.
pub open spec fn routed_document(doc: JsonValue) -> DeliveryValue {
    if is_notice(doc) {
        match envelope_of(doc)->0.notification() {
            Some((id, body)) => DeliveryValue::Notification(id, body),
            None => DeliveryValue::Nothing,
        }
    } else {
        DeliveryValue::Response(doc)
    }
}

/// Where the text of a frame goes, given what `serde_json` read from it.
pub open spec fn routed_reading(reading: Option<JsonValue>) -> DeliveryValue {
    match reading {
        Some(doc) => routed_document(doc),
        None => DeliveryValue::Response(WebSocketError::MessageReceiveError.message()),
    }
}

/// Where the payload of a text frame goes.
pub open spec fn routed_payload(payload: Seq<u8>) -> DeliveryValue {
    if valid_utf8(payload) {
        routed_reading(json_of_text(decode_utf8(payload)))
    } else {
        DeliveryValue::Response(WebSocketError::MessageReceiveError.message())
    }
}

/// What is left of a delivery where no dispatch loop is attached: a
/// notification is dropped.
pub open spec fn attached_delivery(delivery: DeliveryValue, dispatch_attached: bool)
    -> DeliveryValue {
    match delivery {
        DeliveryValue::Notification(_, _) if !dispatch_attached => DeliveryValue::Nothing,
        _ => delivery,
    }
}

/// The state of the loop after a look at its control queue.
pub open spec fn after_control(state: LoopState, polled: Option<JsonValue>) -> LoopState {
    match polled {
        Some(doc) if is_close_sentinel(doc) => LoopState::Stopped,
        _ => state,
    }
}

/// The state of the loop and the delivery after a wait for a frame. A
/// timeout changes nothing. An error of the transport and a close frame stop
/// the loop. A text frame is delivered. Any other frame is dropped. A stopped
/// loop stays stopped and delivers nothing.
pub open spec fn after_frame(state: LoopState, dispatch_attached: bool, polled: FramePoll) -> (
    LoopState,
    DeliveryValue,
) {
    match state {
        LoopState::Stopped => (LoopState::Stopped, DeliveryValue::Nothing),
        LoopState::Running => match polled {
            FramePoll::TimedOut => (LoopState::Running, DeliveryValue::Nothing),
            FramePoll::Failed => (LoopState::Stopped, DeliveryValue::Nothing),
            FramePoll::Arrived(frame) => match frame.opcode {
                OpCode::Text => (
                    LoopState::Running,
                    attached_delivery(routed_payload(frame.payload@), dispatch_attached),
                ),
                OpCode::Close => (LoopState::Stopped, DeliveryValue::Nothing),
                _ => (LoopState::Running, DeliveryValue::Nothing),
            },
        },
    }
}

/// Calls `std::str::from_utf8`. The result is the text that the bytes encode
/// where they are valid UTF-8, and `None` where they are not.
#[verifier::external_body]
fn utf8_text(bytes: &[u8]) -> (text: Option<&str>)
    ensures
        match text {
            Some(t) => valid_utf8(bytes@) && t@ == decode_utf8(bytes@),
            None => !valid_utf8(bytes@),
        },
{
    std::str::from_utf8(bytes).ok()
}

/// Decides where a document goes.
pub fn route_document(doc: Json) -> (delivery: Delivery)
    ensures
        delivery@ == routed_document(doc@),
{
    match ChainResponse::from_json(&doc) {
        Some(envelope) => {
            if envelope.is_subcription_response() {
                match envelope.get_parsed_cb_response() {
                    Some((id, body)) => Delivery::Notification(id, body),
                    None => Delivery::Nothing,
                }
            } else {
                Delivery::Response(doc)
            }
        },
        None => Delivery::Response(doc),
    }
}

/// Decides where the text of a frame goes, given what was read from it: the
/// document, or `None` where the text held none.
pub fn route_reading(reading: Option<Json>) -> (delivery: Delivery)
    ensures
        delivery@ == routed_reading(
            match reading {
                Some(doc) => Some(doc@),
                None => None,
            },
        ),
{
    match reading {
        Some(doc) => route_document(doc),
        None => Delivery::Response(WebSocketError::MessageReceiveError.to_json()),
    }
}

/// Decides where the payload of a text frame goes.
pub fn route_payload(payload: &[u8]) -> (delivery: Delivery)
    ensures
        delivery@ == routed_payload(payload@),
{
    match utf8_text(payload) {
        Some(text) => route_reading(read_json(text)),
        None => Delivery::Response(WebSocketError::MessageReceiveError.to_json()),
    }
}

/// How long the loop looks at its control queue, in milliseconds: the
/// close-poll timeout, and `None` once the loop has stopped.
pub fn control_wait(state: LoopState, config: &Config) -> (millis: Option<u64>)
    ensures
        millis == match state {
            LoopState::Running => Some(config@.timeouts.length(Timeout::WebsocketClose)),
            LoopState::Stopped => None,
        },
{
    match state {
        LoopState::Running => Some(config.get_timeout(Timeout::WebsocketClose)),
        LoopState::Stopped => None,
    }
}

/// How long the loop waits for a frame, in milliseconds: the receive
/// timeout, and `None` once the loop has stopped.
pub fn frame_wait(state: LoopState, config: &Config) -> (millis: Option<u64>)
    ensures
        millis == match state {
            LoopState::Running => Some(config@.timeouts.length(Timeout::WebSocketReceive)),
            LoopState::Stopped => None,
        },
{
    match state {
        LoopState::Running => Some(config.get_timeout(Timeout::WebSocketReceive)),
        LoopState::Stopped => None,
    }
}

/// The first half of a round: what the control queue gave within the
/// close-poll timeout, `None` where it gave nothing. The close sentinel stops
/// the loop; any other value is dropped.
pub fn on_control(state: LoopState, polled: Option<&Json>) -> (next: LoopState)
    ensures
        next == after_control(
            state,
            match polled {
                Some(doc) => Some(doc@),
                None => None,
            },
        ),
{
    match polled {
        Some(doc) => {
            if WebsocketCloseRequest::from_json(doc).is_some() {
                LoopState::Stopped
            } else {
                state
            }
        },
        None => state,
    }
}

/// The second half of a round: what the wait for a frame brought.
pub fn on_frame(state: LoopState, dispatch_attached: bool, polled: FramePoll) -> (r: (
    LoopState,
    Delivery,
))
    ensures
        (r.0, r.1@) == after_frame(state, dispatch_attached, polled),
{
    match state {
        LoopState::Stopped => (LoopState::Stopped, Delivery::Nothing),
        LoopState::Running => match polled {
            FramePoll::TimedOut => (LoopState::Running, Delivery::Nothing),
            FramePoll::Failed => (LoopState::Stopped, Delivery::Nothing),
            FramePoll::Arrived(frame) => match frame.opcode {
                OpCode::Text => {
                    let delivery = route_payload(frame.payload.as_slice());
                    match delivery {
                        Delivery::Notification(id, body) => {
                            if dispatch_attached {
                                (LoopState::Running, Delivery::Notification(id, body))
                            } else {
                                (LoopState::Running, Delivery::Nothing)
                            }
                        },
                        other => (LoopState::Running, other),
                    }
                },
                OpCode::Close => (LoopState::Stopped, Delivery::Nothing),
                _ => (LoopState::Running, Delivery::Nothing),
            },
        },
    }
}

/// Whether a frame is a text frame that holds the document `doc`.
pub open spec fn frame_holds(frame: Frame, doc: JsonValue) -> bool {
    &&& frame.opcode == OpCode::Text
    &&& valid_utf8(frame.payload@)
    &&& json_of_text(decode_utf8(frame.payload@)) == Some(doc)
}

/// A document whose method is `notice` and whose parameters start with a
/// callback id of 64 bits and a body goes to the dispatch loop, with that id
/// and that body, and does not go to the caller. The running loop hands it on
/// where a dispatch loop is attached, drops it where none is, and goes on
/// running.
pub proof fn lemma_notice_goes_to_dispatch(
    doc: JsonValue,
    params: Seq<JsonValue>,
    id: u64,
    frame: Frame,
)
    requires
        doc.member("method"@) == Some(JsonValue::Text("notice"@)),
        doc.member("params"@) == Some(JsonValue::Array(params)),
        params.len() >= 2,
        params[0] == JsonValue::Number(crate::json::NumberValue::PosInt(id)),
    ensures
        routed_document(doc) == DeliveryValue::Notification(id, params[1]),
        routed_document(doc) != DeliveryValue::Response(doc),
        frame_holds(frame, doc) ==> after_frame(
            LoopState::Running,
            true,
            FramePoll::Arrived(frame),
        ) == (LoopState::Running, DeliveryValue::Notification(id, params[1])),
        frame_holds(frame, doc) ==> after_frame(
            LoopState::Running,
            false,
            FramePoll::Arrived(frame),
        ) == (LoopState::Running, DeliveryValue::Nothing),
{
}

/// A document that is no notification goes to the caller, unchanged, whether
/// or not a dispatch loop is attached, and the loop goes on running.
pub proof fn lemma_other_documents_go_to_caller(
    doc: JsonValue,
    dispatch_attached: bool,
    frame: Frame,
)
    requires
        !is_notice(doc),
    ensures
        routed_document(doc) == DeliveryValue::Response(doc),
        frame_holds(frame, doc) ==> after_frame(
            LoopState::Running,
            dispatch_attached,
            FramePoll::Arrived(frame),
        ) == (LoopState::Running, DeliveryValue::Response(doc)),
{
}

/// A text frame that holds no document, because its payload is not valid
/// UTF-8 or because the text is not JSON, goes to the caller as the message
/// of `MessageReceiveError`, and the loop goes on running.
pub proof fn lemma_unreadable_frame_is_reported(dispatch_attached: bool, frame: Frame)
    requires
        frame.opcode == OpCode::Text,
    ensures
        !valid_utf8(frame.payload@) ==> after_frame(
            LoopState::Running,
            dispatch_attached,
            FramePoll::Arrived(frame),
        ) == (
            LoopState::Running,
            DeliveryValue::Response(WebSocketError::MessageReceiveError.message()),
        ),
        json_of_text(decode_utf8(frame.payload@)) is None ==> after_frame(
            LoopState::Running,
            dispatch_attached,
            FramePoll::Arrived(frame),
        ) == (
            LoopState::Running,
            DeliveryValue::Response(WebSocketError::MessageReceiveError.message()),
        ),
{
}

/// Once the loop has stopped, no wait starts it again and nothing is
/// delivered.
pub proof fn lemma_stopped_receiver_stays_stopped(
    dispatch_attached: bool,
    control: Option<JsonValue>,
    polled: FramePoll,
)
    ensures
        after_control(LoopState::Stopped, control) == LoopState::Stopped,
        after_frame(LoopState::Stopped, dispatch_attached, polled) == (
            LoopState::Stopped,
            DeliveryValue::Nothing,
        ),
{
}

} // verus!
