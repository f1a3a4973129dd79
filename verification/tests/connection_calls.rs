use graphene_client::connection::Connection;
use graphene_client::errors::WebSocketError;
use graphene_client::json::Json;
use graphene_client::message_channel::{recv_outcome, send_outcome};

fn answer() -> Json {
    Json::Object(vec![
        ("id".to_string(), Json::number(1)),
        ("result".to_string(), Json::text("abc123")),
    ])
}

#[test]
fn new_connection_is_disconnected() {
    let connection = Connection::new("ws://127.0.0.1:8090".to_string());
    assert_eq!(connection.url(), "ws://127.0.0.1:8090");
    assert!(!connection.is_connected());
    assert_eq!(connection.begin_send(), Err(WebSocketError::NotConnected));
    assert_eq!(connection.begin_receive(), Err(WebSocketError::NotConnected));
    assert_eq!(connection.begin_close(), Err(WebSocketError::NotConnected));
}

#[test]
fn failed_connect_changes_nothing() {
    let mut connection = Connection::new("ws://node".to_string());
    connection.set_callback_channel();
    assert_eq!(connection.on_connect(false), Err(WebSocketError::ConnectionError));
    assert!(!connection.is_connected());
    assert_eq!(connection.begin_send(), Err(WebSocketError::NotConnected));
    assert_eq!(connection.begin_receive(), Err(WebSocketError::NotConnected));
    assert_eq!(connection.begin_close(), Err(WebSocketError::NotConnected));
    assert_eq!(connection.on_connect(true), Ok(true));
}

#[test]
fn connect_hands_the_dispatch_queue_to_the_receiver_once() {
    let mut connection = Connection::new("ws://node".to_string());
    assert_eq!(connection.on_connect(true), Ok(false));
    connection.set_callback_channel();
    assert_eq!(connection.on_connect(true), Ok(true));
    assert_eq!(connection.on_connect(true), Ok(false));
    assert!(connection.is_connected());
    assert_eq!(connection.begin_send(), Ok(()));
    assert_eq!(connection.begin_receive(), Ok(()));
}

#[test]
fn send_maps_each_outcome() {
    assert_eq!(Connection::on_send_enqueued(Ok(())), Ok(()));
    assert_eq!(
        Connection::on_send_enqueued(send_outcome(true, false)),
        Err(WebSocketError::ErrorSenderChannel)
    );
    assert_eq!(
        Connection::on_send_enqueued(Err(WebSocketError::MessageSendError)),
        Err(WebSocketError::ErrorSenderChannel)
    );
    assert_eq!(Connection::on_send_acknowledged(Ok(Some(Json::text("")))), Ok(()));
    assert_eq!(Connection::on_send_acknowledged(Ok(Some(answer()))), Ok(()));
    assert_eq!(
        Connection::on_send_acknowledged(Ok(Some(WebSocketError::ErrorSenderChannel.to_json()))),
        Err(WebSocketError::ErrorSenderChannel)
    );
    assert_eq!(
        Connection::on_send_acknowledged(Ok(None)),
        Err(WebSocketError::ErrorSenderChannel)
    );
    assert_eq!(
        Connection::on_send_acknowledged(recv_outcome(true, None)),
        Err(WebSocketError::ErrorSenderChannel)
    );
}

#[test]
fn receive_returns_the_document_unchanged() {
    assert_eq!(Connection::on_received(Ok(Some(answer()))), Ok(answer()));
    assert_eq!(Connection::on_received(Ok(Some(Json::Null))), Ok(Json::Null));
    assert_eq!(Connection::on_received(Ok(Some(Json::text("")))), Ok(Json::text("")));
}

#[test]
fn receive_surfaces_a_carried_error() {
    assert_eq!(
        Connection::on_received(Ok(Some(WebSocketError::MessageReceiveError.to_json()))),
        Err(WebSocketError::MessageReceiveError)
    );
    assert_eq!(
        Connection::on_received(Ok(Some(WebSocketError::NotConnected.to_json()))),
        Err(WebSocketError::NotConnected)
    );
}

#[test]
fn receive_without_a_value_is_a_receiver_channel_error() {
    assert_eq!(Connection::on_received(Ok(None)), Err(WebSocketError::ErrorReceiverChannel));
    assert_eq!(
        Connection::on_received(Err(WebSocketError::ErrorReceiverChannel)),
        Err(WebSocketError::ErrorReceiverChannel)
    );
    assert_eq!(
        Connection::on_received(recv_outcome(true, None)),
        Err(WebSocketError::ErrorReceiverChannel)
    );
}

#[test]
fn close_sends_the_sentinel_then_the_close_frame() {
    let mut connection = Connection::new("ws://node".to_string());
    assert_eq!(connection.on_connect(true), Ok(false));
    assert_eq!(
        connection.begin_close(),
        Ok(Json::Text("WebsocketCloseRequest::Close".to_string()))
    );
    assert_eq!(connection.on_close_enqueued(Ok(())), Ok(()));
    assert_eq!(connection.on_close_frame(true), Ok(()));
    assert!(!connection.is_connected());
    assert_eq!(connection.begin_send(), Err(WebSocketError::NotConnected));
    assert_eq!(connection.begin_receive(), Err(WebSocketError::NotConnected));
    assert_eq!(connection.begin_close(), Err(WebSocketError::NotConnected));
    assert_eq!(connection.on_close_enqueued(Ok(())), Err(WebSocketError::NotConnected));
}

#[test]
fn closed_connection_can_be_connected_again() {
    let mut connection = Connection::new("ws://node".to_string());
    assert_eq!(connection.on_connect(true), Ok(false));
    assert_eq!(connection.on_close_frame(true), Ok(()));
    assert_eq!(connection.begin_send(), Err(WebSocketError::NotConnected));
    assert_eq!(connection.on_connect(true), Ok(false));
    assert_eq!(connection.begin_send(), Ok(()));
    assert_eq!(connection.begin_receive(), Ok(()));
}

#[test]
fn close_reports_each_failure() {
    let mut connection = Connection::new("ws://node".to_string());
    assert_eq!(connection.on_connect(true), Ok(false));
    assert_eq!(
        connection.on_close_enqueued(Err(WebSocketError::ErrorSenderChannel)),
        Err(WebSocketError::MessageSendError)
    );
    assert_eq!(connection.on_close_frame(false), Err(WebSocketError::WebSocketNotClosed));
    assert!(connection.is_connected());
}
