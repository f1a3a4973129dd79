//! The errors that the client reports, and their form as messages.
//!
//! The background loops never raise an error across a queue: they put the
//! error on the queue as a JSON string that holds its tag, and the caller that
//! waits on the queue turns the tag back into the error.

use crate::json::{same_text, Json, JsonValue};
use vstd::prelude::*;

verus! {

/// What can go wrong between a caller and the socket.
#[derive(Debug, Clone, Copy, PartialEq, Eq, Structural)]
pub enum WebSocketError {
    /// The connection could not be opened.
    ConnectionError,
    /// The close frame was not accepted by the transport.
    WebSocketNotClosed,
    /// A message could not be written to the socket.
    MessageSendError,
    /// A frame could not be read as a message.
    MessageReceiveError,
    /// There is no open connection.
    NotConnected,
    /// The queue to or from the sender loop gave nothing in time.
    ErrorSenderChannel,
    /// The queue from the receiver loop gave nothing in time.
    ErrorReceiverChannel,
    /// A subscription request could not be handed to the dispatch loop.
    SubscribingError,
}

impl WebSocketError {
    /// The sentence that describes the error.
    pub open spec fn description_text(self) -> Seq<char> {
        match self {
            WebSocketError::ConnectionError => "Error on open a connection for Websocket Service"@,
            WebSocketError::WebSocketNotClosed => "Socket has not been closed successfully"@,
            WebSocketError::MessageSendError => "Error on Message Sending on Websocket Service"@,
            WebSocketError::MessageReceiveError => "Error on Message Receiving on Websocket Service"@,
            WebSocketError::NotConnected => "Websocket Connection not established"@,
            WebSocketError::ErrorSenderChannel => "Error receive message on Sender Task"@,
            WebSocketError::ErrorReceiverChannel => "Error sending message on Receiver Task"@,
            WebSocketError::SubscribingError => "Error on subscribing"@,
        }
    }

    /// The tag under which the error travels through a queue.
    pub open spec fn tag_text(self) -> Seq<char> {
        match self {
            WebSocketError::ConnectionError => "WebSocketError::ConnectionError"@,
            WebSocketError::WebSocketNotClosed => "WebSocketError::WebSocketNotClosed"@,
            WebSocketError::MessageSendError => "WebSocketError::MessageSendError"@,
            WebSocketError::MessageReceiveError => "WebSocketError::MessageReceiveError"@,
            WebSocketError::NotConnected => "WebSocketError::NotConnected"@,
            WebSocketError::ErrorSenderChannel => "WebSocketError::ErrorSenderChannel"@,
            WebSocketError::ErrorReceiverChannel => "WebSocketError::ErrorReceiverChannel"@,
            WebSocketError::SubscribingError => "WebSocketError::SubscribingError"@,
        }
    }

    /// The tag as a serialized JSON string: the tag between double quotes.
    pub open spec fn quoted_tag_text(self) -> Seq<char> {
        match self {
            WebSocketError::ConnectionError => "\"WebSocketError::ConnectionError\""@,
            WebSocketError::WebSocketNotClosed => "\"WebSocketError::WebSocketNotClosed\""@,
            WebSocketError::MessageSendError => "\"WebSocketError::MessageSendError\""@,
            WebSocketError::MessageReceiveError => "\"WebSocketError::MessageReceiveError\""@,
            WebSocketError::NotConnected => "\"WebSocketError::NotConnected\""@,
            WebSocketError::ErrorSenderChannel => "\"WebSocketError::ErrorSenderChannel\""@,
            WebSocketError::ErrorReceiverChannel => "\"WebSocketError::ErrorReceiverChannel\""@,
            WebSocketError::SubscribingError => "\"WebSocketError::SubscribingError\""@,
        }
    }

    /// The message under which the error travels through a queue.
    pub open spec fn message(self) -> JsonValue {
        JsonValue::Text(self.tag_text())
    }

    /// The sentence that describes the error.
    pub fn description(&self) -> (s: &'static str)
        ensures
            s@ == self.description_text(),
    {
        match self {
            WebSocketError::ConnectionError => "Error on open a connection for Websocket Service",
            WebSocketError::WebSocketNotClosed => "Socket has not been closed successfully",
            WebSocketError::MessageSendError => "Error on Message Sending on Websocket Service",
            WebSocketError::MessageReceiveError => "Error on Message Receiving on Websocket Service",
            WebSocketError::NotConnected => "Websocket Connection not established",
            WebSocketError::ErrorSenderChannel => "Error receive message on Sender Task",
            WebSocketError::ErrorReceiverChannel => "Error sending message on Receiver Task",
            WebSocketError::SubscribingError => "Error on subscribing",
        }
    }

    /// The error as it is shown to a reader: its description.
    pub fn to_string(&self) -> (s: String)
        ensures
            s@ == self.description_text(),
    {
        self.description().to_owned()
    }

    /// The tag under which the error travels through a queue.
    pub fn tag(&self) -> (s: &'static str)
        ensures
            s@ == self.tag_text(),
    {
        match self {
            WebSocketError::ConnectionError => "WebSocketError::ConnectionError",
            WebSocketError::WebSocketNotClosed => "WebSocketError::WebSocketNotClosed",
            WebSocketError::MessageSendError => "WebSocketError::MessageSendError",
            WebSocketError::MessageReceiveError => "WebSocketError::MessageReceiveError",
            WebSocketError::NotConnected => "WebSocketError::NotConnected",
            WebSocketError::ErrorSenderChannel => "WebSocketError::ErrorSenderChannel",
            WebSocketError::ErrorReceiverChannel => "WebSocketError::ErrorReceiverChannel",
            WebSocketError::SubscribingError => "WebSocketError::SubscribingError",
        }
    }

    /// Reads an error from its serialized tag. The text must be the tag
    /// between double quotes, with nothing before or after.
    pub fn from_str(s: &str) -> (r: Result<WebSocketError, ()>)
        ensures
            match r {
                Ok(e) => s@ == e.quoted_tag_text(),
                Err(_) => forall|e: WebSocketError| s@ != e.quoted_tag_text(),
            },
    {
        if same_text(s, "\"WebSocketError::ConnectionError\"") {
            Ok(WebSocketError::ConnectionError)
        } else if same_text(s, "\"WebSocketError::WebSocketNotClosed\"") {
            Ok(WebSocketError::WebSocketNotClosed)
        } else if same_text(s, "\"WebSocketError::MessageSendError\"") {
            Ok(WebSocketError::MessageSendError)
        } else if same_text(s, "\"WebSocketError::MessageReceiveError\"") {
            Ok(WebSocketError::MessageReceiveError)
        } else if same_text(s, "\"WebSocketError::NotConnected\"") {
            Ok(WebSocketError::NotConnected)
        } else if same_text(s, "\"WebSocketError::ErrorSenderChannel\"") {
            Ok(WebSocketError::ErrorSenderChannel)
        } else if same_text(s, "\"WebSocketError::ErrorReceiverChannel\"") {
            Ok(WebSocketError::ErrorReceiverChannel)
        } else if same_text(s, "\"WebSocketError::SubscribingError\"") {
            Ok(WebSocketError::SubscribingError)
        } else {
            Err(())
        }
    }

    /// The message that carries the error through a queue: a JSON string that
    /// holds the tag.
    pub fn to_json(self) -> (doc: Json)
        ensures
            doc@ == self.message(),
    {
        Json::text(self.tag())
    }

    /// The error that a message carries, if it carries one: `Some(e)` exactly
    /// for the JSON string that holds the tag of `e`.
    pub fn from_json(doc: &Json) -> (r: Option<WebSocketError>)
        ensures
            r == carried_error(doc@),
            match r {
                Some(e) => doc@ == e.message(),
                None => forall|e: WebSocketError| doc@ != e.message(),
            },
    {
        proof {
            assert forall|e: WebSocketError| doc@ == e.message() implies carried_error(doc@)
                == Some(e) by {
                lemma_carried_error(doc@, e);
            }
        }
        match doc.as_text() {
            Some(t) => {
                let t = t.as_str();
                if same_text(t, "WebSocketError::ConnectionError") {
                    Some(WebSocketError::ConnectionError)
                } else if same_text(t, "WebSocketError::WebSocketNotClosed") {
                    Some(WebSocketError::WebSocketNotClosed)
                } else if same_text(t, "WebSocketError::MessageSendError") {
                    Some(WebSocketError::MessageSendError)
                } else if same_text(t, "WebSocketError::MessageReceiveError") {
                    Some(WebSocketError::MessageReceiveError)
                } else if same_text(t, "WebSocketError::NotConnected") {
                    Some(WebSocketError::NotConnected)
                } else if same_text(t, "WebSocketError::ErrorSenderChannel") {
                    Some(WebSocketError::ErrorSenderChannel)
                } else if same_text(t, "WebSocketError::ErrorReceiverChannel") {
                    Some(WebSocketError::ErrorReceiverChannel)
                } else if same_text(t, "WebSocketError::SubscribingError") {
                    Some(WebSocketError::SubscribingError)
                } else {
                    None
                }
            },
            None => None,
        }
    }
}

/// The error that a message carries, if it carries one.
pub open spec fn carried_error(doc: JsonValue) -> Option<WebSocketError> {
    if exists|e: WebSocketError| doc == e.message() {
        Some(choose|e: WebSocketError| doc == e.message())
    } else {
        None
    }
}

/// Every tag starts with the sixteen characters `WebSocketError::`, is
/// longer than that, and no two errors share a tag.
pub proof fn lemma_tags_distinct(a: WebSocketError, b: WebSocketError)
    ensures
        a.tag_text().len() > 16,
        a != b ==> a.tag_text() != b.tag_text(),
        a != b ==> a.message() != b.message(),
{
    reveal_strlit("WebSocketError::ConnectionError");
    reveal_strlit("WebSocketError::WebSocketNotClosed");
    reveal_strlit("WebSocketError::MessageSendError");
    reveal_strlit("WebSocketError::MessageReceiveError");
    reveal_strlit("WebSocketError::NotConnected");
    reveal_strlit("WebSocketError::ErrorSenderChannel");
    reveal_strlit("WebSocketError::ErrorReceiverChannel");
    reveal_strlit("WebSocketError::SubscribingError");
    if a != b && a.tag_text() == b.tag_text() {
        assert(a.tag_text().len() == b.tag_text().len());
        assert(a.tag_text()[16] == b.tag_text()[16]);
        assert(false);
    }
}

/// No two errors share a serialized tag.
pub proof fn lemma_quoted_tags_distinct(a: WebSocketError, b: WebSocketError)
    ensures
        a != b ==> a.quoted_tag_text() != b.quoted_tag_text(),
{
    reveal_strlit("\"WebSocketError::ConnectionError\"");
    reveal_strlit("\"WebSocketError::WebSocketNotClosed\"");
    reveal_strlit("\"WebSocketError::MessageSendError\"");
    reveal_strlit("\"WebSocketError::MessageReceiveError\"");
    reveal_strlit("\"WebSocketError::NotConnected\"");
    reveal_strlit("\"WebSocketError::ErrorSenderChannel\"");
    reveal_strlit("\"WebSocketError::ErrorReceiverChannel\"");
    reveal_strlit("\"WebSocketError::SubscribingError\"");
    if a != b && a.quoted_tag_text() == b.quoted_tag_text() {
        assert(a.quoted_tag_text().len() == b.quoted_tag_text().len());
        assert(a.quoted_tag_text()[17] == b.quoted_tag_text()[17]);
        assert(false);
    }
}

/// An error that was put on a queue is the error that is read from it.
pub proof fn lemma_error_round_trip(e: WebSocketError)
    ensures
        carried_error(e.message()) == Some(e),
{
    let found = choose|x: WebSocketError| e.message() == x.message();
    lemma_tags_distinct(e, found);
}

/// A message carries an error exactly when the decoder finds it.
pub proof fn lemma_carried_error(doc: JsonValue, e: WebSocketError)
    ensures
        doc == e.message() <==> carried_error(doc) == Some(e),
{
    if doc == e.message() {
        lemma_error_round_trip(e);
    }
}

} // verus!
