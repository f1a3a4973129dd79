//! The queues between the callers and the background loops.
//!
//! A message channel pairs two one-directional queues of bounded capacity.
//! Putting a value on a queue waits a short time, taking one waits longer: a
//! sender fails fast under backpressure, a receiver tolerates a slow answer.
//! The queues themselves belong to the runtime; this module holds what the
//! client decides from the outcome of each queue operation, and the reserved
//! value that asks a loop to stop.

use crate::errors::WebSocketError;
use crate::json::{same_text, Json, JsonValue};
use vstd::prelude::*;

verus! {

/// How many values a queue holds before a sender has to wait.
pub const CHANNEL_CAPACITY: usize = 100;

/// How long a sender waits for room on a queue, in seconds.
pub const SEND_TIMEOUT_SECS: u64 = 1;

/// How long a receiver waits for a value, in seconds.
pub const RECV_TIMEOUT_SECS: u64 = 3;

/// The request to shut a loop down. It travels through the same queue as
/// ordinary messages, as a JSON string that holds its tag.
#[derive(Debug, Clone, Copy, PartialEq, Eq, Structural)]
pub enum WebsocketCloseRequest {
    Close,
}

impl WebsocketCloseRequest {
    /// The tag of the request.
    pub open spec fn tag_text() -> Seq<char> {
        "WebsocketCloseRequest::Close"@
    }

    /// The tag as a serialized JSON string: the tag between double quotes.
    pub open spec fn quoted_tag_text() -> Seq<char> {
        "\"WebsocketCloseRequest::Close\""@
    }

    /// The message that carries the request: the close sentinel.
    pub open spec fn message() -> JsonValue {
        JsonValue::Text(Self::tag_text())
    }

    /// Reads the request from its serialized tag. The text must be the tag
    /// between double quotes, with nothing before or after.
    pub fn from_str(s: &str) -> (r: Result<WebsocketCloseRequest, ()>)
        ensures
            r is Ok <==> s@ == Self::quoted_tag_text(),
    {
        if same_text(s, "\"WebsocketCloseRequest::Close\"") {
            Ok(WebsocketCloseRequest::Close)
        } else {
            Err(())
        }
    }

    /// The close sentinel.
    pub fn to_json(self) -> (doc: Json)
        ensures
            doc@ == Self::message(),
    {
        Json::text("WebsocketCloseRequest::Close")
    }

    /// Reads the request from a message: `Some` exactly for the close sentinel.
    pub fn from_json(doc: &Json) -> (r: Option<WebsocketCloseRequest>)
        ensures
            r is Some <==> doc@ == Self::message(),
    {
        if doc.is_text("WebsocketCloseRequest::Close") {
            Some(WebsocketCloseRequest::Close)
        } else {
            None
        }
    }
}

/// The result of putting a value on a message channel. `attached` says
/// whether the channel has its queues, `delivered` whether the queue took the
/// value within the send timeout.
pub fn send_outcome(attached: bool, delivered: bool) -> (r: Result<(), WebSocketError>)
    ensures
        r == if attached && delivered {
            Ok::<(), WebSocketError>(())
        } else {
            Err::<(), WebSocketError>(WebSocketError::ErrorSenderChannel)
        },
{
    if attached && delivered {
        Ok(())
    } else {
        Err(WebSocketError::ErrorSenderChannel)
    }
}

/// The result of taking a value from a message channel. `attached` says
/// whether the channel has its queues, `polled` is what the queue gave within
/// the receive timeout: `None` where it gave nothing or is closed.
pub fn recv_outcome<T>(attached: bool, polled: Option<T>) -> (r: Result<Option<T>, WebSocketError>)
    ensures
        r == match polled {
            Some(value) if attached => Ok::<Option<T>, WebSocketError>(Some(value)),
            _ => Err::<Option<T>, WebSocketError>(WebSocketError::ErrorReceiverChannel),
        },
{
    match polled {
        Some(value) => {
            if attached {
                Ok(Some(value))
            } else {
                Err(WebSocketError::ErrorReceiverChannel)
            }
        },
        None => Err(WebSocketError::ErrorReceiverChannel),
    }
}

/// The result of handing a request to the dispatch loop: a registration, an
/// unregistration or a close request. `attached` says whether the queue
/// exists, `delivered` whether it took the request.
pub fn subscription_outcome(attached: bool, delivered: bool) -> (r: Result<(), WebSocketError>)
    ensures
        r == if attached && delivered {
            Ok::<(), WebSocketError>(())
        } else {
            Err::<(), WebSocketError>(WebSocketError::SubscribingError)
        },
{
    if attached && delivered {
        Ok(())
    } else {
        Err(WebSocketError::SubscribingError)
    }
}

/// Whether a message is the close sentinel.
pub open spec fn is_close_sentinel(doc: JsonValue) -> bool {
    doc == WebsocketCloseRequest::message()
}

/// The close sentinel is not the message of any error, and neither of them is
/// the empty string that acknowledges a write.
pub proof fn lemma_sentinel_is_no_error(e: WebSocketError)
    ensures
        WebsocketCloseRequest::message() != e.message(),
        WebsocketCloseRequest::message() != JsonValue::Text(""@),
        e.message() != JsonValue::Text(""@),
{
    reveal_strlit("WebsocketCloseRequest::Close");
    reveal_strlit("");
    crate::errors::lemma_tags_distinct(e, e);
    reveal_strlit("WebSocketError::ConnectionError");
    reveal_strlit("WebSocketError::WebSocketNotClosed");
    reveal_strlit("WebSocketError::MessageSendError");
    reveal_strlit("WebSocketError::MessageReceiveError");
    reveal_strlit("WebSocketError::NotConnected");
    reveal_strlit("WebSocketError::ErrorSenderChannel");
    reveal_strlit("WebSocketError::ErrorReceiverChannel");
    reveal_strlit("WebSocketError::SubscribingError");
    assert(WebsocketCloseRequest::tag_text().len() == 28);
    assert(""@.len() == 0);
    if WebsocketCloseRequest::message() == e.message() {
        assert(WebsocketCloseRequest::tag_text()[3] == e.tag_text()[3]);
        assert(WebsocketCloseRequest::tag_text()[9] == e.tag_text()[9]);
        assert(false);
    }
}

} // verus!
