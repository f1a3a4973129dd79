use graphene_client::apis::{GrapheneApi, GrapheneApis};
use graphene_client::chain_getters::ChainGetters;
use graphene_client::client::{GrapheneClient, InitStep};
use graphene_client::config::{Config, CustomApi, Timeout, Timeouts};
use graphene_client::connection::Connection;
use graphene_client::errors::WebSocketError;
use graphene_client::getters::ChainGetter;
use graphene_client::json::{Json, JsonNumber};
use graphene_client::listeners::receiver::{route_payload, Delivery};
use graphene_client::rpc::{call, number_result_of, text_array, text_result_of};
use graphene_client::subscriptions::ChainSubscriptions;

fn object(members: Vec<(&str, Json)>) -> Json {
    Json::Object(members.into_iter().map(|(k, v)| (k.to_string(), v)).collect())
}

fn request(api: u64, name: &str, arguments: Vec<Json>) -> Json {
    object(vec![
        ("method", Json::text("call")),
        ("params", Json::Array(vec![Json::number(api), Json::text(name), Json::Array(arguments)])),
        ("id", Json::number(1)),
    ])
}

fn number_answer(n: u64) -> Json {
    object(vec![("id", Json::number(1)), ("result", Json::number(n))])
}

fn config() -> Config {
    Config::new(
        Timeouts::new(100, 200, 300),
        vec![
            CustomApi::new(5, "asset".to_string()),
            CustomApi::new(6, "orders".to_string()),
            CustomApi::new(5, "shadowed".to_string()),
        ],
    )
}

#[test]
fn call_has_the_wire_format() {
    assert_eq!(call(0, "get_chain_id", vec![]), request(0, "get_chain_id", vec![]));
    assert_eq!(
        call(1, "login", vec![Json::text("a"), Json::text("b")]),
        request(1, "login", vec![Json::text("a"), Json::text("b")])
    );
}

#[test]
fn text_array_holds_each_text() {
    assert_eq!(text_array(&vec![]), Json::Array(vec![]));
    assert_eq!(
        text_array(&vec!["1.2.7".to_string(), "1.3.6".to_string()]),
        Json::Array(vec![Json::text("1.2.7"), Json::text("1.3.6")])
    );
}

#[test]
fn text_result_needs_a_small_id_and_a_string_result() {
    let good = object(vec![("id", Json::number(1)), ("result", Json::text("abc123"))]);
    assert_eq!(text_result_of(&good), Some("abc123".to_string()));
    let extra = object(vec![
        ("jsonrpc", Json::text("2.0")),
        ("result", Json::text("x")),
        ("id", Json::number(255)),
    ]);
    assert_eq!(text_result_of(&extra), Some("x".to_string()));
    assert_eq!(text_result_of(&object(vec![("result", Json::text("x"))])), None);
    assert_eq!(text_result_of(&object(vec![("id", Json::number(1))])), None);
    assert_eq!(text_result_of(&number_answer(3)), None);
    assert_eq!(
        text_result_of(&object(vec![("id", Json::number(256)), ("result", Json::text("x"))])),
        None
    );
    assert_eq!(
        text_result_of(&object(vec![("id", Json::text("1")), ("result", Json::text("x"))])),
        None
    );
    assert_eq!(text_result_of(&Json::Null), None);
}

#[test]
fn number_result_needs_a_small_id_and_a_small_result() {
    assert_eq!(number_result_of(&number_answer(0)), Some(0));
    assert_eq!(number_result_of(&number_answer(255)), Some(255));
    assert_eq!(number_result_of(&number_answer(256)), None);
    assert_eq!(
        number_result_of(&object(vec![
            ("id", Json::number(1)),
            ("result", Json::Number(JsonNumber::NegInt(-1))),
        ])),
        None
    );
    assert_eq!(
        number_result_of(&object(vec![("id", Json::number(1)), ("result", Json::text("2"))])),
        None
    );
    assert_eq!(number_result_of(&object(vec![("result", Json::number(2))])), None);
}

#[test]
fn getter_without_a_socket_service_is_not_connected() {
    let getter = ChainGetter::new();
    assert_eq!(getter.get_chain_id(), Err(WebSocketError::NotConnected));
    assert_eq!(
        getter.get_chain_api_id(GrapheneApi::Database(0), &config()),
        Err(WebSocketError::NotConnected)
    );
    assert_eq!(getter.get_chain_objects(&vec![]), Err(WebSocketError::NotConnected));
}

#[test]
fn getter_builds_its_requests() {
    let mut getter = ChainGetter::new();
    getter.set_ws_connection();
    assert_eq!(getter.get_chain_id(), Ok(request(0, "get_chain_id", vec![])));
    assert_eq!(
        getter.get_chain_api_id(GrapheneApi::Database(0), &config()),
        Ok(request(1, "database", vec![]))
    );
    assert_eq!(
        getter.get_chain_api_id(GrapheneApi::Network(9), &config()),
        Ok(request(1, "network_broadcast", vec![]))
    );
    assert_eq!(
        getter.get_chain_api_id(GrapheneApi::Custom(6), &config()),
        Ok(request(1, "orders", vec![]))
    );
    assert_eq!(
        getter.get_chain_objects(&vec!["1.2.7".to_string()]),
        Ok(request(0, "get_objects", vec![Json::Array(vec![Json::text("1.2.7")])]))
    );
}

#[test]
fn getter_reads_its_answers() {
    let chain = object(vec![("id", Json::number(1)), ("result", Json::text("abc123"))]);
    assert_eq!(ChainGetter::chain_id_of(&chain), Ok("abc123".to_string()));
    assert_eq!(
        ChainGetter::chain_id_of(&number_answer(2)),
        Err(WebSocketError::MessageReceiveError)
    );
    assert_eq!(ChainGetter::chain_api_id_of(&number_answer(2)), Ok(2));
    assert_eq!(ChainGetter::chain_api_id_of(&chain), Err(WebSocketError::MessageReceiveError));
}

#[test]
fn subscriptions_build_two_requests_in_order() {
    let mut subscriptions = ChainSubscriptions::new();
    let accounts = vec!["1.2.7".to_string()];
    assert_eq!(
        subscriptions.get_full_accounts(4, &accounts),
        Err(WebSocketError::NotConnected)
    );
    subscriptions.set_ws_connection();
    assert_eq!(
        subscriptions.get_full_accounts(4, &accounts),
        Ok((
            request(0, "set_subscribe_callback", vec![Json::number(4), Json::Bool(true)]),
            request(0, "get_objects", vec![Json::Array(vec![Json::text("1.2.7")])]),
        ))
    );
}

#[test]
fn chain_id_round_trip_from_request_to_decoded_answer() {
    let mut client = GrapheneClient::new();
    client.set_ws_connection();
    let sent = client.chain_getter().get_chain_id().unwrap();
    assert_eq!(sent, request(0, "get_chain_id", vec![]));
    let delivered = match route_payload(br#"{"id":1,"result":"abc123"}"#) {
        Delivery::Response(doc) => doc,
        other => panic!("expected an answer, got {:?}", other),
    };
    let received = Connection::on_received(Ok(Some(delivered))).unwrap();
    assert_eq!(
        received,
        object(vec![("id", Json::number(1)), ("result", Json::text("abc123"))])
    );
    assert_eq!(ChainGetter::chain_id_of(&received), Ok("abc123".to_string()));
}

#[test]
fn client_without_a_socket_service_refuses_every_call() {
    let client = GrapheneClient::new();
    assert_eq!(client.connect(), Err(WebSocketError::ConnectionError));
    assert_eq!(client.close(), Err(WebSocketError::ConnectionError));
    assert_eq!(client.login(None, None), Err(WebSocketError::ConnectionError));
    assert_eq!(
        client.init_request(InitStep::Login, &config()),
        Err(WebSocketError::ConnectionError)
    );
    assert_eq!(
        client.init_request(InitStep::ChainId, &config()),
        Err(WebSocketError::NotConnected)
    );
    assert_eq!(
        client.init_request(InitStep::CryptoApi, &config()),
        Err(WebSocketError::NotConnected)
    );
    assert_eq!(client.init_request(InitStep::Done, &config()), Ok(None));
    assert_eq!(client.subscribe_to_account(&vec![]), Err(WebSocketError::SubscribingError));
}

#[test]
fn login_uses_empty_strings_for_what_is_missing() {
    let mut client = GrapheneClient::new();
    client.set_ws_connection();
    assert_eq!(client.connect(), Ok(()));
    assert_eq!(client.close(), Ok(()));
    assert_eq!(
        client.login(Some("init0".to_string()), Some("password".to_string())),
        Ok(request(1, "login", vec![Json::text("init0"), Json::text("password")]))
    );
    assert_eq!(
        client.login(None, Some("secret".to_string())),
        Ok(request(1, "login", vec![Json::text(""), Json::text("secret")]))
    );
    assert_eq!(
        client.login(None, None),
        Ok(request(1, "login", vec![Json::text(""), Json::text("")]))
    );
}

#[test]
fn init_asks_six_questions_and_notes_the_answers() {
    let config = config();
    let mut client = GrapheneClient::new();
    client.set_ws_connection();
    let mut step = InitStep::Login;
    let expected = vec![
        request(1, "login", vec![Json::text("init0"), Json::text("password")]),
        request(0, "get_chain_id", vec![]),
        request(1, "database", vec![]),
        request(1, "network_broadcast", vec![]),
        request(1, "history", vec![]),
        request(1, "crypto", vec![]),
    ];
    let answers = vec![
        object(vec![("id", Json::number(1)), ("result", Json::Bool(true))]),
        object(vec![("id", Json::number(1)), ("result", Json::text("abc123"))]),
        number_answer(2),
        number_answer(3),
        number_answer(4),
        number_answer(5),
    ];
    for (want, answer) in expected.into_iter().zip(answers) {
        assert_eq!(client.init_request(step, &config), Ok(Some(want)));
        step = client.on_init_answer(step, &answer).unwrap();
    }
    assert_eq!(step, InitStep::Done);
    assert_eq!(client.init_request(step, &config), Ok(None));
    assert_eq!(client.on_init_answer(step, &Json::Null), Ok(InitStep::Done));
    assert_eq!(client.chain_id(), Some(&"abc123".to_string()));
    assert_eq!(client.apis().get_database_api(), Some(2));
    assert_eq!(client.apis().get_network_api(), Some(3));
    assert_eq!(client.apis().get_history_api(), Some(4));
    assert_eq!(client.apis().get_crypto_api(), Some(5));
    assert_eq!(client.apis().get_custom_api(), None);
}

#[test]
fn init_stops_at_an_answer_of_the_wrong_form() {
    let mut client = GrapheneClient::new();
    client.set_ws_connection();
    assert_eq!(
        client.on_init_answer(InitStep::ChainId, &number_answer(1)),
        Err(WebSocketError::MessageReceiveError)
    );
    assert_eq!(client.chain_id(), None);
    assert_eq!(
        client.on_init_answer(InitStep::DatabaseApi, &Json::Null),
        Err(WebSocketError::MessageReceiveError)
    );
    assert_eq!(client.apis().get_database_api(), None);
    assert_eq!(client.on_init_answer(InitStep::Login, &Json::Null), Ok(InitStep::ChainId));
}

#[test]
fn subscriptions_get_increasing_ids() {
    let mut client = GrapheneClient::new();
    client.set_ws_connection();
    client.create_callback_channel();
    let accounts = vec!["1.2.7".to_string()];
    let (id, first, second) = client.subscribe_to_account(&accounts).unwrap();
    assert_eq!(id, 0);
    assert_eq!(
        first,
        request(0, "set_subscribe_callback", vec![Json::number(0), Json::Bool(true)])
    );
    assert_eq!(second, request(0, "get_objects", vec![Json::Array(vec![Json::text("1.2.7")])]));
    assert_eq!(client.on_subscription_sent(Ok(())), Ok(0));
    assert_eq!(client.callback_id_counter(), 1);
    let (id, _, _) = client.subscribe_to_account(&accounts).unwrap();
    assert_eq!(id, 1);
    assert_eq!(client.on_subscription_sent(Ok(())), Ok(1));
    assert_eq!(client.callback_id_counter(), 2);
}

#[test]
fn failed_subscription_does_not_use_up_an_id() {
    let mut client = GrapheneClient::new();
    client.set_ws_connection();
    assert_eq!(client.on_subscription_sent(Ok(())), Err(WebSocketError::SubscribingError));
    assert_eq!(client.callback_id_counter(), 0);
    client.create_callback_channel();
    assert_eq!(
        client.on_subscription_sent(Err(WebSocketError::MessageSendError)),
        Err(WebSocketError::SubscribingError)
    );
    assert_eq!(client.callback_id_counter(), 0);
    assert_eq!(client.on_subscription_sent(Ok(())), Ok(0));
}

#[test]
fn apis_start_unknown_and_keep_what_is_set() {
    let mut apis = GrapheneApis::new();
    assert_eq!(apis.get_database_api(), None);
    assert_eq!(apis.get_network_api(), None);
    assert_eq!(apis.get_history_api(), None);
    assert_eq!(apis.get_crypto_api(), None);
    assert_eq!(apis.get_custom_api(), None);
    apis.set_database_api(2);
    apis.set_network_api(3);
    apis.set_history_api(4);
    apis.set_crypto_api(5);
    apis.set_custom_api(vec![9, 8, 9]);
    assert_eq!(apis.get_database_api(), Some(2));
    assert_eq!(apis.get_network_api(), Some(3));
    assert_eq!(apis.get_history_api(), Some(4));
    assert_eq!(apis.get_crypto_api(), Some(5));
    assert_eq!(apis.get_custom_api(), Some(vec![9, 8, 9]));
    apis.set_database_api(255);
    apis.set_custom_api(vec![]);
    assert_eq!(apis.get_database_api(), Some(255));
    assert_eq!(apis.get_network_api(), Some(3));
    assert_eq!(apis.get_custom_api(), Some(vec![]));
}

#[test]
fn api_converts_to_its_number_label_and_name() {
    let config = config();
    assert_eq!(u8::from(GrapheneApi::Database(2)), 2);
    assert_eq!(u8::from(GrapheneApi::Network(3)), 3);
    assert_eq!(u8::from(GrapheneApi::History(4)), 4);
    assert_eq!(u8::from(GrapheneApi::Crypto(5)), 5);
    assert_eq!(u8::from(GrapheneApi::Custom(255)), 255);
    assert_eq!(GrapheneApi::Database(2).to_string(), "GrapheneApi::Database");
    assert_eq!(GrapheneApi::Network(2).to_string(), "GrapheneApi::Network");
    assert_eq!(GrapheneApi::History(2).to_string(), "GrapheneApi::History");
    assert_eq!(GrapheneApi::Crypto(2).to_string(), "GrapheneApi::Crypto");
    assert_eq!(GrapheneApi::Custom(2).to_string(), "GrapheneApi::Custom");
    assert_eq!(GrapheneApi::Database(2).name(&config), "database");
    assert_eq!(GrapheneApi::Network(2).name(&config), "network_broadcast");
    assert_eq!(GrapheneApi::History(2).name(&config), "history");
    assert_eq!(GrapheneApi::Crypto(2).name(&config), "crypto");
    assert_eq!(GrapheneApi::Custom(5).name(&config), "asset");
    assert_eq!(GrapheneApi::Custom(7).name(&config), "");
}

#[test]
fn config_gives_timeouts_and_the_first_matching_name() {
    let config = config();
    assert_eq!(config.get_timeout(Timeout::WebSocketSend), 100);
    assert_eq!(config.get_timeout(Timeout::WebSocketReceive), 200);
    assert_eq!(config.get_timeout(Timeout::WebsocketClose), 300);
    assert_eq!(config.get_custom_api_name(5), "asset");
    assert_eq!(config.get_custom_api_name(6), "orders");
    assert_eq!(config.get_custom_api_name(0), "");
    let empty = Config::new(Timeouts::new(0, u64::MAX, 1), vec![]);
    assert_eq!(empty.get_custom_api_name(5), "");
    assert_eq!(empty.get_timeout(Timeout::WebSocketReceive), u64::MAX);
    let timeouts = Timeouts::new(1, 2, 3);
    assert_eq!(timeouts.get_timeout(Timeout::WebSocketSend), 1);
    assert_eq!(timeouts.get_timeout(Timeout::WebSocketReceive), 2);
    assert_eq!(timeouts.get_timeout(Timeout::WebsocketClose), 3);
}

#[test]
fn chain_getters_have_their_labels() {
    assert_eq!(ChainGetters::ChainId.to_string(), "ChainGetters::ChainId");
    assert_eq!(ChainGetters::DatabaseApiId.to_string(), "ChainGetters::DatabaseApiId");
    assert_eq!(ChainGetters::NetworkApiId.to_string(), "ChainGetters::NetworkApiId");
    assert_eq!(ChainGetters::HistoryApiId.to_string(), "ChainGetters::HistoryApiId");
    assert_eq!(ChainGetters::CryptoApiId.to_string(), "ChainGetters::CryptoApiId");
}
