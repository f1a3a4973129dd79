use graphene_client::errors::WebSocketError;
use graphene_client::json::{same_text, Json, JsonNumber};
use graphene_client::message_channel::{
    recv_outcome, send_outcome, subscription_outcome, WebsocketCloseRequest, CHANNEL_CAPACITY,
    RECV_TIMEOUT_SECS, SEND_TIMEOUT_SECS,
};

fn all_errors() -> Vec<WebSocketError> {
    vec![
        WebSocketError::ConnectionError,
        WebSocketError::WebSocketNotClosed,
        WebSocketError::MessageSendError,
        WebSocketError::MessageReceiveError,
        WebSocketError::NotConnected,
        WebSocketError::ErrorSenderChannel,
        WebSocketError::ErrorReceiverChannel,
        WebSocketError::SubscribingError,
    ]
}

#[test]
fn error_descriptions_are_the_documented_sentences() {
    assert_eq!(
        WebSocketError::ConnectionError.description(),
        "Error on open a connection for Websocket Service"
    );
    assert_eq!(
        WebSocketError::WebSocketNotClosed.description(),
        "Socket has not been closed successfully"
    );
    assert_eq!(
        WebSocketError::MessageSendError.description(),
        "Error on Message Sending on Websocket Service"
    );
    assert_eq!(
        WebSocketError::MessageReceiveError.description(),
        "Error on Message Receiving on Websocket Service"
    );
    assert_eq!(WebSocketError::NotConnected.description(), "Websocket Connection not established");
    assert_eq!(
        WebSocketError::ErrorSenderChannel.description(),
        "Error receive message on Sender Task"
    );
    assert_eq!(
        WebSocketError::ErrorReceiverChannel.description(),
        "Error sending message on Receiver Task"
    );
    assert_eq!(WebSocketError::SubscribingError.description(), "Error on subscribing");
}

#[test]
fn error_to_string_is_its_description() {
    for e in all_errors() {
        assert_eq!(e.to_string(), e.description().to_string());
    }
}

#[test]
fn error_from_str_reads_each_quoted_tag() {
    assert_eq!(
        WebSocketError::from_str("\"WebSocketError::ConnectionError\""),
        Ok(WebSocketError::ConnectionError)
    );
    assert_eq!(
        WebSocketError::from_str("\"WebSocketError::WebSocketNotClosed\""),
        Ok(WebSocketError::WebSocketNotClosed)
    );
    assert_eq!(
        WebSocketError::from_str("\"WebSocketError::MessageSendError\""),
        Ok(WebSocketError::MessageSendError)
    );
    assert_eq!(
        WebSocketError::from_str("\"WebSocketError::MessageReceiveError\""),
        Ok(WebSocketError::MessageReceiveError)
    );
    assert_eq!(
        WebSocketError::from_str("\"WebSocketError::NotConnected\""),
        Ok(WebSocketError::NotConnected)
    );
    assert_eq!(
        WebSocketError::from_str("\"WebSocketError::ErrorSenderChannel\""),
        Ok(WebSocketError::ErrorSenderChannel)
    );
    assert_eq!(
        WebSocketError::from_str("\"WebSocketError::ErrorReceiverChannel\""),
        Ok(WebSocketError::ErrorReceiverChannel)
    );
    assert_eq!(
        WebSocketError::from_str("\"WebSocketError::SubscribingError\""),
        Ok(WebSocketError::SubscribingError)
    );
}

#[test]
fn error_from_str_rejects_everything_else() {
    assert_eq!(WebSocketError::from_str("WebSocketError::ConnectionError"), Err(()));
    assert_eq!(WebSocketError::from_str("\"WebSocketError::ConnectionError\" "), Err(()));
    assert_eq!(WebSocketError::from_str("\"\""), Err(()));
    assert_eq!(WebSocketError::from_str(""), Err(()));
    assert_eq!(WebSocketError::from_str("{\"id\":1}"), Err(()));
}

#[test]
fn error_round_trips_through_its_message() {
    for e in all_errors() {
        let message = e.to_json();
        assert_eq!(message, Json::Text(e.tag().to_string()));
        assert_eq!(WebSocketError::from_json(&message), Some(e));
    }
}

#[test]
fn error_from_json_finds_no_error_in_other_documents() {
    assert_eq!(WebSocketError::from_json(&Json::Text(String::new())), None);
    assert_eq!(WebSocketError::from_json(&Json::Null), None);
    assert_eq!(WebSocketError::from_json(&Json::Number(JsonNumber::PosInt(3))), None);
    assert_eq!(
        WebSocketError::from_json(&Json::Text("\"WebSocketError::ConnectionError\"".to_string())),
        None
    );
    assert_eq!(
        WebSocketError::from_json(&Json::Array(vec![WebSocketError::NotConnected.to_json()])),
        None
    );
    assert_eq!(WebSocketError::from_json(&WebsocketCloseRequest::Close.to_json()), None);
}

#[test]
fn close_request_from_str_reads_only_its_quoted_tag() {
    assert_eq!(
        WebsocketCloseRequest::from_str("\"WebsocketCloseRequest::Close\""),
        Ok(WebsocketCloseRequest::Close)
    );
    assert_eq!(WebsocketCloseRequest::from_str("WebsocketCloseRequest::Close"), Err(()));
    assert_eq!(WebsocketCloseRequest::from_str("\"websocketcloserequest::close\""), Err(()));
    assert_eq!(WebsocketCloseRequest::from_str(""), Err(()));
}

#[test]
fn close_request_round_trips_through_the_sentinel() {
    let sentinel = WebsocketCloseRequest::Close.to_json();
    assert_eq!(sentinel, Json::Text("WebsocketCloseRequest::Close".to_string()));
    assert_eq!(WebsocketCloseRequest::from_json(&sentinel), Some(WebsocketCloseRequest::Close));
    assert_eq!(WebsocketCloseRequest::from_json(&Json::Text("Close".to_string())), None);
    assert_eq!(WebsocketCloseRequest::from_json(&Json::Null), None);
    for e in all_errors() {
        assert_eq!(WebsocketCloseRequest::from_json(&e.to_json()), None);
    }
}

#[test]
fn channel_constants() {
    assert_eq!(CHANNEL_CAPACITY, 100);
    assert_eq!(SEND_TIMEOUT_SECS, 1);
    assert_eq!(RECV_TIMEOUT_SECS, 3);
    assert!(SEND_TIMEOUT_SECS < RECV_TIMEOUT_SECS);
}

#[test]
fn send_outcome_needs_a_channel_and_a_delivery() {
    assert_eq!(send_outcome(true, true), Ok(()));
    assert_eq!(send_outcome(true, false), Err(WebSocketError::ErrorSenderChannel));
    assert_eq!(send_outcome(false, true), Err(WebSocketError::ErrorSenderChannel));
    assert_eq!(send_outcome(false, false), Err(WebSocketError::ErrorSenderChannel));
}

#[test]
fn recv_outcome_needs_a_channel_and_a_value() {
    assert_eq!(recv_outcome(true, Some(7u32)), Ok(Some(7u32)));
    assert_eq!(recv_outcome::<u32>(true, None), Err(WebSocketError::ErrorReceiverChannel));
    assert_eq!(recv_outcome(false, Some(7u32)), Err(WebSocketError::ErrorReceiverChannel));
    assert_eq!(recv_outcome::<u32>(false, None), Err(WebSocketError::ErrorReceiverChannel));
}

#[test]
fn subscription_outcome_needs_a_queue_and_a_delivery() {
    assert_eq!(subscription_outcome(true, true), Ok(()));
    assert_eq!(subscription_outcome(true, false), Err(WebSocketError::SubscribingError));
    assert_eq!(subscription_outcome(false, true), Err(WebSocketError::SubscribingError));
    assert_eq!(subscription_outcome(false, false), Err(WebSocketError::SubscribingError));
}

#[test]
fn same_text_compares_characters() {
    assert!(same_text("", ""));
    assert!(same_text("notice", "notice"));
    assert!(!same_text("notice", "notice "));
    assert!(!same_text("notice", "Notice"));
    assert!(!same_text("abc", "abd"));
    assert!(same_text("h\u{e9}llo \u{1F600}", "h\u{e9}llo \u{1F600}"));
    assert!(!same_text("h\u{e9}llo", "hello"));
}
