//! One socket session: its lifecycle, and the calls that a caller makes on it.
//!
//! A connection is created disconnected. It is connected once the transport
//! has opened the socket: at that moment it has its two message channels, the
//! sender loop and the receiver loop have been started, and the socket handle
//! is stored. It is closed once the close sentinel is on the way to the sender
//! loop and the transport has accepted the close frame: the handle is then
//! discarded. A connection without a stored handle answers every call with
//! `NotConnected`; it never connects on its own.
//!
//! A call on the connection is a short sequence of waits. What each wait
//! brought decides how the call goes on; those decisions are the functions of
//! this module.

use crate::errors::{carried_error, lemma_error_round_trip, WebSocketError};
use crate::json::{Json, JsonValue};
use crate::listeners::sender::{
    acknowledgement_of, after_dequeue, positive_acknowledgement, SenderStepValue, WriteOutcome,
};
use crate::listeners::LoopState;
use crate::message_channel::{
    is_close_sentinel, lemma_sentinel_is_no_error, WebsocketCloseRequest,
};
use vstd::prelude::*;

verus! {

/// A socket session.
#[derive(Debug)]
pub struct Connection {
    url: String,
    socket: bool,
    callback_channel: bool,
}

/// The mathematical value of a [`Connection`].
pub ghost struct ConnectionView {
    /// The address of the node.
    pub url: Seq<char>,
    /// Whether the socket handle is stored: the session is connected.
    pub socket: bool,
    /// Whether a queue to a dispatch loop waits to be handed to the next
    /// receiver loop.
    pub callback_channel: bool,
}

/// What a queue gave, with the document taken by its value.
pub open spec fn polled_value(polled: Result<Option<Json>, WebSocketError>) -> Result<
    Option<JsonValue>,
    WebSocketError,
> {
    match polled {
        Ok(Some(doc)) => Ok(Some(doc@)),
        Ok(None) => Ok(None),
        Err(e) => Err(e),
    }
}

/// The result of `send`, given what the acknowledgement queue gave.
pub open spec fn send_result(polled: Result<Option<JsonValue>, WebSocketError>) -> Result<
    (),
    WebSocketError,
> {
    match polled {
        Ok(Some(ack)) => match carried_error(ack) {
            Some(e) => Err(e),
            None => Ok(()),
        },
        _ => Err(WebSocketError::ErrorSenderChannel),
    }
}

/// The result of `receive`, given what the inbound queue gave: the error
/// that the value carries, the value itself where it carries none, and
/// `ErrorReceiverChannel` where the queue gave nothing in time.
pub open spec fn receive_result(polled: Result<Option<JsonValue>, WebSocketError>) -> Result<
    JsonValue,
    WebSocketError,
> {
    match polled {
        Ok(Some(doc)) => match carried_error(doc) {
            Some(e) => Err(e),
            None => Ok(doc),
        },
        _ => Err(WebSocketError::ErrorReceiverChannel),
    }
}

impl View for Connection {
    type V = ConnectionView;

    closed spec fn view(&self) -> ConnectionView {
        ConnectionView {
            url: self.url@,
            socket: self.socket,
            callback_channel: self.callback_channel,
        }
    }
}

impl Connection {
    /// A disconnected session with the node at `url`.
    pub fn new(url: String) -> (connection: Connection)
        ensures
            connection@ == (ConnectionView { url: url@, socket: false, callback_channel: false }),
    {
        Connection { url, socket: false, callback_channel: false }
    }

    /// The address of the node.
    pub fn url(&self) -> (url: &str)
        ensures
            url@ == self@.url,
    {
        self.url.as_str()
    }

    /// Whether the socket handle is stored.
    pub fn is_connected(&self) -> (connected: bool)
        ensures
            connected == self@.socket,
    {
        self.socket
    }

    /// Notes that a queue to a dispatch loop is at hand. The next receiver
    /// loop takes it.
    pub fn set_callback_channel(&mut self)
        ensures
            final(self)@ == (ConnectionView { callback_channel: true, ..old(self)@ }),
    {
        self.callback_channel = true;
    }

    /// `connect`, after the transport has tried to open the socket. Where it
    /// opened, the connection is connected, and the result says whether the
    /// receiver loop got a queue to a dispatch loop; the queue is handed over,
    /// so a later connect has none. Where it did not open, the result is
    /// `ConnectionError` and nothing changes.
    pub fn on_connect(&mut self, opened: bool) -> (r: Result<bool, WebSocketError>)
        ensures
            opened ==> r == Ok::<bool, WebSocketError>(old(self)@.callback_channel) && final(self)@
                == (ConnectionView {
                url: old(self)@.url,
                socket: true,
                callback_channel: false,
            }),
            !opened ==> r == Err::<bool, WebSocketError>(WebSocketError::ConnectionError)
                && final(self)@ == old(self)@,
    {
        if opened {
            let dispatch_attached = self.callback_channel;
            self.callback_channel = false;
            self.socket = true;
            Ok(dispatch_attached)
        } else {
            Err(WebSocketError::ConnectionError)
        }
    }

    /// `send`, first step: whether the session is connected. Where it is
    /// not, because it never was or because it has been closed, the result is
    /// `NotConnected` and nothing is put on a queue.
    pub fn begin_send(&self) -> (r: Result<(), WebSocketError>)
        ensures
            r == if self@.socket {
                Ok::<(), WebSocketError>(())
            } else {
                Err::<(), WebSocketError>(WebSocketError::NotConnected)
            },
    {
        if self.socket {
            Ok(())
        } else {
            Err(WebSocketError::NotConnected)
        }
    }

    /// `send`, second step: what came of putting the request on the queue.
    /// A failure there, a full queue or a timeout, is the channel error
    /// `ErrorSenderChannel`.
    pub fn on_send_enqueued(enqueued: Result<(), WebSocketError>) -> (r: Result<
        (),
        WebSocketError,
    >)
        ensures
            r == if enqueued is Ok {
                Ok::<(), WebSocketError>(())
            } else {
                Err::<(), WebSocketError>(WebSocketError::ErrorSenderChannel)
            },
    {
        match enqueued {
            Ok(_) => Ok(()),
            Err(_) => Err(WebSocketError::ErrorSenderChannel),
        }
    }

    /// `send`, last step: what the acknowledgement queue gave. A value that
    /// carries an error is that error; any other value is success; no value
    /// is an `ErrorSenderChannel`.
    pub fn on_send_acknowledged(polled: Result<Option<Json>, WebSocketError>) -> (r: Result<
        (),
        WebSocketError,
    >)
        ensures
            r == send_result(polled_value(polled)),
    {
        match polled {
            Ok(Some(ack)) => match WebSocketError::from_json(&ack) {
                Some(e) => Err(e),
                None => Ok(()),
            },
            _ => Err(WebSocketError::ErrorSenderChannel),
        }
    }

    /// `receive`, first step: whether the session is connected. Where it is
    /// not, because it never was or because it has been closed, the result is
    /// `NotConnected` and no queue is waited on.
    pub fn begin_receive(&self) -> (r: Result<(), WebSocketError>)
        ensures
            r == if self@.socket {
                Ok::<(), WebSocketError>(())
            } else {
                Err::<(), WebSocketError>(WebSocketError::NotConnected)
            },
    {
        if self.socket {
            Ok(())
        } else {
            Err(WebSocketError::NotConnected)
        }
    }

    /// `receive`, last step: what the inbound queue gave. A value that
    /// carries an error is that error; any other value is returned as it is;
    /// no value in time is the channel error `ErrorReceiverChannel`.
    pub fn on_received(polled: Result<Option<Json>, WebSocketError>) -> (r: Result<
        Json,
        WebSocketError,
    >)
        ensures
            match r {
                Ok(doc) => polled == Ok::<Option<Json>, WebSocketError>(Some(doc))
                    && receive_result(polled_value(polled)) == Ok::<JsonValue, WebSocketError>(
                    doc@,
                ),
                Err(e) => receive_result(polled_value(polled)) == Err::<JsonValue, WebSocketError>(
                    e,
                ),
            },
    {
        match polled {
            Ok(Some(doc)) => match WebSocketError::from_json(&doc) {
                Some(e) => Err(e),
                None => Ok(doc),
            },
            _ => Err(WebSocketError::ErrorReceiverChannel),
        }
    }

    /// `close`, first step: the close sentinel to put on the queue to the
    /// sender loop. Where the session is not connected the result is
    /// `NotConnected`: nothing is put on a queue and no close frame is sent.
    pub fn begin_close(&self) -> (r: Result<Json, WebSocketError>)
        ensures
            match r {
                Ok(sentinel) => self@.socket && sentinel@ == WebsocketCloseRequest::message(),
                Err(e) => !self@.socket && e == WebSocketError::NotConnected,
            },
    {
        if self.socket {
            Ok(WebsocketCloseRequest::Close.to_json())
        } else {
            Err(WebSocketError::NotConnected)
        }
    }

    /// `close`, second step: what came of putting the sentinel on the queue.
    /// A failure there is a `MessageSendError`. After a success the close
    /// frame is sent, unless there is no socket: then the result is
    /// `NotConnected`.
    pub fn on_close_enqueued(&self, enqueued: Result<(), WebSocketError>) -> (r: Result<
        (),
        WebSocketError,
    >)
        ensures
            r == if enqueued is Err {
                Err::<(), WebSocketError>(WebSocketError::MessageSendError)
            } else if !self@.socket {
                Err::<(), WebSocketError>(WebSocketError::NotConnected)
            } else {
                Ok::<(), WebSocketError>(())
            },
    {
        match enqueued {
            Err(_) => Err(WebSocketError::MessageSendError),
            Ok(_) => {
                if self.socket {
                    Ok(())
                } else {
                    Err(WebSocketError::NotConnected)
                }
            },
        }
    }

    /// `close`, last step: whether the transport accepted the close frame.
    /// Where it did, the socket handle is discarded, so that later calls find
    /// no connection; where it did not, the connection stays as it is.
    pub fn on_close_frame(&mut self, accepted: bool) -> (r: Result<(), WebSocketError>)
        ensures
            accepted ==> r == Ok::<(), WebSocketError>(()) && final(self)@ == (ConnectionView {
                socket: false,
                ..old(self)@
            }),
            !accepted ==> r == Err::<(), WebSocketError>(WebSocketError::WebSocketNotClosed)
                && final(self)@ == old(self)@,
    {
        if accepted {
            self.socket = false;
            Ok(())
        } else {
            Err(WebSocketError::WebSocketNotClosed)
        }
    }
}

/// A request that is not the close sentinel is written to the socket by a
/// running sender loop, once, and the loop goes on running. After a write
/// that succeeded the loop puts the positive acknowledgement on the queue,
/// and a caller that takes it from there gets success from `send`. After a
/// write that failed or took too long the caller gets `MessageSendError`.
pub proof fn lemma_send_is_acknowledged(request: JsonValue)
    requires
        !is_close_sentinel(request),
    ensures
        after_dequeue(LoopState::Running, Some(request)) == (
            LoopState::Running,
            SenderStepValue::Transmit(request),
        ),
        acknowledgement_of(WriteOutcome::Written) == positive_acknowledgement(),
        send_result(Ok(Some(acknowledgement_of(WriteOutcome::Written)))) == Ok::<
            (),
            WebSocketError,
        >(()),
        send_result(Ok(Some(acknowledgement_of(WriteOutcome::Failed)))) == Err::<
            (),
            WebSocketError,
        >(WebSocketError::MessageSendError),
        send_result(Ok(Some(acknowledgement_of(WriteOutcome::TimedOut)))) == Err::<
            (),
            WebSocketError,
        >(WebSocketError::MessageSendError),
{
    lemma_error_round_trip(WebSocketError::MessageSendError);
    assert forall|e: WebSocketError| positive_acknowledgement() != e.message() by {
        lemma_sentinel_is_no_error(e);
    }
}

/// What the receiver loop hands to the caller is what `receive` returns: a
/// document that carries no error comes back unchanged, and the message of
/// an error comes back as that error. Where nothing arrives in time, the
/// caller gets the channel error `ErrorReceiverChannel`.
pub proof fn lemma_receive_returns_delivery(doc: JsonValue, e: WebSocketError)
    ensures
        carried_error(doc) is None ==> receive_result(Ok(Some(doc))) == Ok::<
            JsonValue,
            WebSocketError,
        >(doc),
        receive_result(Ok(Some(e.message()))) == Err::<JsonValue, WebSocketError>(e),
        receive_result(Ok(None)) == Err::<JsonValue, WebSocketError>(
            WebSocketError::ErrorReceiverChannel,
        ),
        receive_result(Err(e)) == Err::<JsonValue, WebSocketError>(
            WebSocketError::ErrorReceiverChannel,
        ),
{
    lemma_error_round_trip(e);
}

} // verus!
