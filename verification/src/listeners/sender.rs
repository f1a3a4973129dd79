//! The sender loop: it owns the write half of the socket.
//!
//! The loop takes the next outbound value from its queue. The close sentinel
//! stops it. Any other value is written to the socket, and the outcome of the
//! write is put on the acknowledgement queue: the empty string after a write
//! that succeeded, the message of `MessageSendError` after one that failed or
//! took too long. A caller waits for exactly one acknowledgement per value.

use crate::config::{Config, Timeout};
use crate::errors::WebSocketError;
use crate::json::{Json, JsonValue};
use crate::listeners::LoopState;
use crate::message_channel::{is_close_sentinel, WebsocketCloseRequest};
use vstd::prelude::*;

verus! {

/// How a write to the socket ended.
#[derive(Debug, Clone, Copy, PartialEq, Eq, Structural)]
pub enum WriteOutcome {
    /// The transport accepted the message within the send timeout.
    Written,
    /// The transport reported an error.
    Failed,
    /// The send timeout passed first.
    TimedOut,
}

/// What the loop does with what it took from its queue.
#[derive(Debug, PartialEq)]
pub enum SenderStep {
    /// Write the message to the socket, then acknowledge the outcome.
    Transmit(Json),
    /// Put the value on the acknowledgement queue.
    Acknowledge(Json),
    /// Nothing: the loop has stopped.
    Halt,
}

/// The mathematical value of a [`SenderStep`].
pub ghost enum SenderStepValue {
    Transmit(JsonValue),
    Acknowledge(JsonValue),
    Halt,
}

impl View for SenderStep {
    type V = SenderStepValue;

    open spec fn view(&self) -> SenderStepValue {
        match self {
            SenderStep::Transmit(doc) => SenderStepValue::Transmit(doc@),
            SenderStep::Acknowledge(doc) => SenderStepValue::Acknowledge(doc@),
            SenderStep::Halt => SenderStepValue::Halt,
        }
    }
}

/// The acknowledgement of a write that succeeded: the empty JSON string.
pub open spec fn positive_acknowledgement() -> JsonValue {
    JsonValue::Text(""@)
}

/// The state of the loop and its step after it took `item` from its queue:
/// `None` stands for a queue that is closed. The sentinel is looked for
/// before anything else is made of the value.
pub open spec fn after_dequeue(state: LoopState, item: Option<JsonValue>) -> (
    LoopState,
    SenderStepValue,
) {
    match state {
        LoopState::Stopped => (LoopState::Stopped, SenderStepValue::Halt),
        LoopState::Running => match item {
            Some(doc) => if is_close_sentinel(doc) {
                (LoopState::Stopped, SenderStepValue::Halt)
            } else {
                (LoopState::Running, SenderStepValue::Transmit(doc))
            },
            None => (
                LoopState::Running,
                SenderStepValue::Acknowledge(WebSocketError::ErrorSenderChannel.message()),
            ),
        },
    }
}

/// Whether what the loop took from its queue is the close sentinel.
pub open spec fn is_sentinel_item(item: Option<JsonValue>) -> bool {
    item matches Some(doc) && is_close_sentinel(doc)
}

/// The acknowledgement of a write.
pub open spec fn acknowledgement_of(outcome: WriteOutcome) -> JsonValue {
    match outcome {
        WriteOutcome::Written => positive_acknowledgement(),
        _ => WebSocketError::MessageSendError.message(),
    }
}

/// The state of the loop after it took each of `items` from its queue, in
/// order, starting in `state`.
pub open spec fn state_after(state: LoopState, items: Seq<Option<JsonValue>>) -> LoopState
    decreases items.len(),
{
    if items.len() == 0 {
        state
    } else {
        after_dequeue(state_after(state, items.drop_last()), items.last()).0
    }
}

/// The step that the loop takes for `items[at]`, having started in `state`
/// and taken the items before it.
pub open spec fn step_at(state: LoopState, items: Seq<Option<JsonValue>>, at: int)
    -> SenderStepValue {
    after_dequeue(state_after(state, items.take(at)), items[at]).1
}

/// How long a write may take, in milliseconds: the send timeout.
pub fn write_wait(config: &Config) -> (millis: u64)
    ensures
        millis == config@.timeouts.length(Timeout::WebSocketSend),
{
    config.get_timeout(Timeout::WebSocketSend)
}

/// Decides what to do with what the loop took from its queue: `None` stands
/// for a queue that is closed.
pub fn on_dequeue(state: LoopState, item: Option<Json>) -> (r: (LoopState, SenderStep))
    ensures
        (r.0, r.1@) == after_dequeue(
            state,
            match item {
                Some(doc) => Some(doc@),
                None => None,
            },
        ),
{
    match state {
        LoopState::Stopped => (LoopState::Stopped, SenderStep::Halt),
        LoopState::Running => match item {
            Some(doc) => {
                if WebsocketCloseRequest::from_json(&doc).is_some() {
                    (LoopState::Stopped, SenderStep::Halt)
                } else {
                    (LoopState::Running, SenderStep::Transmit(doc))
                }
            },
            None => (
                LoopState::Running,
                SenderStep::Acknowledge(WebSocketError::ErrorSenderChannel.to_json()),
            ),
        },
    }
}

/// The value that acknowledges a write.
pub fn acknowledgement(outcome: WriteOutcome) -> (ack: Json)
    ensures
        ack@ == acknowledgement_of(outcome),
{
    match outcome {
        WriteOutcome::Written => Json::text(""),
        _ => WebSocketError::MessageSendError.to_json(),
    }
}

/// A stopped loop stays stopped, whatever is put on its queue.
pub proof fn lemma_stopped_sender_stays_stopped(items: Seq<Option<JsonValue>>)
    ensures
        state_after(LoopState::Stopped, items) == LoopState::Stopped,
    decreases items.len(),
{
    if items.len() > 0 {
        lemma_stopped_sender_stays_stopped(items.drop_last());
    }
}

/// Once the close sentinel has come through the queue, the loop is stopped
/// and takes no further step: whatever is put on the queue after the
/// sentinel is neither written to the socket nor acknowledged.
pub proof fn lemma_sentinel_stops_sender(
    state: LoopState,
    items: Seq<Option<JsonValue>>,
    sentinel_at: int,
    later: int,
)
    requires
        0 <= sentinel_at < later <= items.len(),
        is_sentinel_item(items[sentinel_at]),
    ensures
        state_after(state, items.take(later)) == LoopState::Stopped,
        later < items.len() ==> step_at(state, items, later) == SenderStepValue::Halt,
    decreases later,
{
    let upto = items.take(later);
    assert(upto.drop_last() =~= items.take(later - 1));
    assert(upto.last() == items[later - 1]);
    if later - 1 > sentinel_at {
        lemma_sentinel_stops_sender(state, items, sentinel_at, later - 1);
    }
}

/// Before the sentinel, a running loop writes every value that it takes
/// from its queue: none is lost and none is written twice.
pub proof fn lemma_sender_transmits_in_order(items: Seq<Option<JsonValue>>, at: int)
    requires
        0 <= at < items.len(),
        forall|k: int| 0 <= k <= at ==> !is_sentinel_item(#[trigger] items[k]),
    ensures
        state_after(LoopState::Running, items.take(at)) == LoopState::Running,
        items[at] matches Some(doc) ==> step_at(LoopState::Running, items, at)
            == SenderStepValue::Transmit(doc),
    decreases at,
{
    if at > 0 {
        lemma_sender_transmits_in_order(items, at - 1);
        assert(items.take(at).drop_last() =~= items.take(at - 1));
        assert(items.take(at).last() == items[at - 1]);
    }
}

} // verus!
