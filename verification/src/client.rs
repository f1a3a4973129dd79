//! The state of a client session: what it knows of the node, and the id that
//! the next subscription gets.
//!
//! A session starts with `init`: a login, the question for the chain's id,
//! and the question for the number of each of the four standard APIs. Each of
//! the six is one request and one answer; [`GrapheneClient::init_request`]
//! gives the request of a step and [`GrapheneClient::on_init_answer`] takes
//! its answer and names the next step.

use crate::apis::{ApiNumbers, GrapheneApi, GrapheneApis};
use crate::config::{Config, ConfigView};
use crate::errors::WebSocketError;
use crate::getters::{api_id_request, chain_id_request, ChainGetter};
use crate::json::{values_of, Json, JsonValue};
use crate::rpc::{call, call_value, number_result, text_result};
use crate::subscriptions::{subscribe_callback_request, ChainSubscriptions};
use vstd::prelude::*;

verus! {

/// The steps of `init`, in their order.
#[derive(Debug, Clone, Copy, PartialEq, Eq, Structural)]
pub enum InitStep {
    Login,
    ChainId,
    DatabaseApi,
    NetworkApi,
    HistoryApi,
    CryptoApi,
    Done,
}

/// A client session.
#[derive(Debug)]
pub struct GrapheneClient {
    attached: bool,
    callback_id_counter: u64,
    callback_channel: bool,
    chain_id: Option<String>,
    apis: GrapheneApis,
}

/// The mathematical value of a [`GrapheneClient`].
pub ghost struct ClientView {
    /// Whether the client has been given the socket service.
    pub attached: bool,
    /// The id that the next subscription gets.
    pub callback_id_counter: u64,
    /// Whether the client has the queues to a dispatch loop.
    pub callback_channel: bool,
    /// The chain's id, once the node has told it.
    pub chain_id: Option<Seq<char>>,
    /// The numbers of the node's APIs, as far as the node has told them.
    pub apis: ApiNumbers,
}

/// The request that logs in with the given name and password.
pub open spec fn login_value(username: Seq<char>, password: Seq<char>) -> JsonValue {
    call_value(1, "login"@, seq![JsonValue::Text(username), JsonValue::Text(password)])
}

/// The request that logs in. A missing name or password is the empty string.
pub open spec fn login_request(username: Option<String>, password: Option<String>) -> JsonValue {
    login_value(
        match username {
            Some(name) => name@,
            None => ""@,
        },
        match password {
            Some(word) => word@,
            None => ""@,
        },
    )
}

impl InitStep {
    /// The step after this one.
    pub open spec fn next(self) -> InitStep {
        match self {
            InitStep::Login => InitStep::ChainId,
            InitStep::ChainId => InitStep::DatabaseApi,
            InitStep::DatabaseApi => InitStep::NetworkApi,
            InitStep::NetworkApi => InitStep::HistoryApi,
            InitStep::HistoryApi => InitStep::CryptoApi,
            InitStep::CryptoApi => InitStep::Done,
            InitStep::Done => InitStep::Done,
        }
    }

    /// The request of this step: `None` for the last step, which asks nothing.
    pub open spec fn request(self, config: ConfigView) -> Option<JsonValue> {
        match self {
            InitStep::Login => Some(login_value("init0"@, "password"@)),
            InitStep::ChainId => Some(chain_id_request()),
            InitStep::DatabaseApi => Some(
                api_id_request(GrapheneApi::Database(0).name_text(config)),
            ),
            InitStep::NetworkApi => Some(api_id_request(GrapheneApi::Network(0).name_text(config))),
            InitStep::HistoryApi => Some(api_id_request(GrapheneApi::History(0).name_text(config))),
            InitStep::CryptoApi => Some(api_id_request(GrapheneApi::Crypto(0).name_text(config))),
            InitStep::Done => None,
        }
    }

    /// Whether the answer to this step has the form that the step expects.
    /// Any answer to the login is accepted.
    pub open spec fn accepts(self, answer: JsonValue) -> bool {
        match self {
            InitStep::Login | InitStep::Done => true,
            InitStep::ChainId => text_result(answer) is Some,
            _ => number_result(answer) is Some,
        }
    }

    /// What the client knows after the answer to this step, where the step
    /// accepts the answer.
    pub open spec fn learn(self, known: ClientView, answer: JsonValue) -> ClientView {
        match self {
            InitStep::Login | InitStep::Done => known,
            InitStep::ChainId => ClientView { chain_id: text_result(answer), ..known },
            InitStep::DatabaseApi => ClientView {
                apis: ApiNumbers { database: number_result(answer), ..known.apis },
                ..known
            },
            InitStep::NetworkApi => ClientView {
                apis: ApiNumbers { network: number_result(answer), ..known.apis },
                ..known
            },
            InitStep::HistoryApi => ClientView {
                apis: ApiNumbers { history: number_result(answer), ..known.apis },
                ..known
            },
            InitStep::CryptoApi => ClientView {
                apis: ApiNumbers { crypto: number_result(answer), ..known.apis },
                ..known
            },
        }
    }
}

impl View for GrapheneClient {
    type V = ClientView;

    closed spec fn view(&self) -> ClientView {
        ClientView {
            attached: self.attached,
            callback_id_counter: self.callback_id_counter,
            callback_channel: self.callback_channel,
            chain_id: match self.chain_id {
                Some(id) => Some(id@),
                None => None,
            },
            apis: self.apis@,
        }
    }
}

impl GrapheneClient {
    /// A client that knows nothing and has no socket service. Its first
    /// subscription gets the id 0.
    pub fn new() -> (client: GrapheneClient)
        ensures
            client@ == (ClientView {
                attached: false,
                callback_id_counter: 0,
                callback_channel: false,
                chain_id: None,
                apis: ApiNumbers {
                    database: None,
                    network: None,
                    history: None,
                    crypto: None,
                    custom: None,
                },
            }),
    {
        GrapheneClient {
            attached: false,
            callback_id_counter: 0,
            callback_channel: false,
            chain_id: None,
            apis: GrapheneApis::new(),
        }
    }

    /// The getter of the client. It has the socket service exactly when the
    /// client has it.
    pub fn chain_getter(&self) -> (getter: ChainGetter)
        ensures
            getter.attached() == self@.attached,
    {
        let mut getter = ChainGetter::new();
        if self.attached {
            getter.set_ws_connection();
        }
        getter
    }

    /// The subscriptions of the client. They have the socket service exactly
    /// when the client has it.
    pub fn chain_subscriptions(&self) -> (subscriptions: ChainSubscriptions)
        ensures
            subscriptions.attached() == self@.attached,
    {
        let mut subscriptions = ChainSubscriptions::new();
        if self.attached {
            subscriptions.set_ws_connection();
        }
        subscriptions
    }

    /// The numbers of the node's APIs, as far as the node has told them.
    pub fn apis(&self) -> (apis: &GrapheneApis)
        ensures
            apis@ == self@.apis,
    {
        &self.apis
    }

    /// The chain's id, once the node has told it.
    pub fn chain_id(&self) -> (id: Option<&String>)
        ensures
            match id {
                Some(text) => self@.chain_id == Some(text@),
                None => self@.chain_id is None,
            },
    {
        self.chain_id.as_ref()
    }

    /// The id that the next subscription gets.
    pub fn callback_id_counter(&self) -> (id: u64)
        ensures
            id == self@.callback_id_counter,
    {
        self.callback_id_counter
    }

    /// Gives the client, its getter and its subscriptions the socket service.
    pub fn set_ws_connection(&mut self)
        ensures
            final(self)@ == (ClientView { attached: true, ..old(self)@ }),
    {
        self.attached = true;
    }

    /// Notes that the client has the queues to a dispatch loop.
    pub fn create_callback_channel(&mut self)
        ensures
            final(self)@ == (ClientView { callback_channel: true, ..old(self)@ }),
    {
        self.callback_channel = true;
    }

    /// Whether `connect` may go on to the socket service: `ConnectionError`
    /// where the client has none.
    pub fn connect(&self) -> (r: Result<(), WebSocketError>)
        ensures
            r == if self@.attached {
                Ok::<(), WebSocketError>(())
            } else {
                Err::<(), WebSocketError>(WebSocketError::ConnectionError)
            },
    {
        if self.attached {
            Ok(())
        } else {
            Err(WebSocketError::ConnectionError)
        }
    }

    /// Whether `close` may go on to the socket service: `ConnectionError`
    /// where the client has none.
    pub fn close(&self) -> (r: Result<(), WebSocketError>)
        ensures
            r == if self@.attached {
                Ok::<(), WebSocketError>(())
            } else {
                Err::<(), WebSocketError>(WebSocketError::ConnectionError)
            },
    {
        if self.attached {
            Ok(())
        } else {
            Err(WebSocketError::ConnectionError)
        }
    }

    /// The request that logs in, or `ConnectionError` where the client has no
    /// socket service. Whatever the node answers is accepted.
    pub fn login(&self, username: Option<String>, password: Option<String>) -> (r: Result<
        Json,
        WebSocketError,
    >)
        ensures
            match r {
                Ok(request) => self@.attached && request@ == login_request(username, password),
                Err(e) => !self@.attached && e == WebSocketError::ConnectionError,
            },
    {
        if self.attached {
            let name = match username {
                Some(name) => Json::Text(name),
                None => Json::text(""),
            };
            let word = match password {
                Some(word) => Json::Text(word),
                None => Json::text(""),
            };
            let ghost name_value = name@;
            let ghost word_value = word@;
            let mut arguments: Vec<Json> = Vec::new();
            arguments.push(name);
            arguments.push(word);
            assert(values_of(arguments@) =~= seq![name_value, word_value]);
            Ok(call(1, "login", arguments))
        } else {
            Err(WebSocketError::ConnectionError)
        }
    }

    /// The request of a step of `init`: `None` for the last step, which asks
    /// nothing. The login needs the client's socket service and fails with
    /// `ConnectionError` without it; the other steps need the getter's and
    /// fail with `NotConnected`.
    pub fn init_request(&self, step: InitStep, config: &Config) -> (r: Result<
        Option<Json>,
        WebSocketError,
    >)
        ensures
            match r {
                Ok(Some(request)) => self@.attached && step.request(config@) == Some(request@),
                Ok(None) => step == InitStep::Done,
                Err(e) => !self@.attached && step != InitStep::Done && e == if step
                    == InitStep::Login {
                    WebSocketError::ConnectionError
                } else {
                    WebSocketError::NotConnected
                },
            },
    {
        let request = match step {
            InitStep::Login => {
                let name = "init0".to_owned();
                let word = "password".to_owned();
                self.login(Some(name), Some(word))
            },
            InitStep::ChainId => self.chain_getter().get_chain_id(),
            InitStep::DatabaseApi => self.chain_getter().get_chain_api_id(
                GrapheneApi::Database(0),
                config,
            ),
            InitStep::NetworkApi => self.chain_getter().get_chain_api_id(
                GrapheneApi::Network(0),
                config,
            ),
            InitStep::HistoryApi => self.chain_getter().get_chain_api_id(
                GrapheneApi::History(0),
                config,
            ),
            InitStep::CryptoApi => self.chain_getter().get_chain_api_id(
                GrapheneApi::Crypto(0),
                config,
            ),
            InitStep::Done => {
                return Ok(None);
            },
        };
        match request {
            Ok(request) => Ok(Some(request)),
            Err(e) => Err(e),
        }
    }

    /// Takes the answer to a step of `init` and names the next step. An
    /// answer of the form that the step expects is noted; any other is a
    /// `MessageReceiveError` and leaves the client as it was.
    pub fn on_init_answer(&mut self, step: InitStep, answer: &Json) -> (r: Result<
        InitStep,
        WebSocketError,
    >)
        ensures
            step.accepts(answer@) ==> r == Ok::<InitStep, WebSocketError>(step.next())
                && final(self)@ == step.learn(old(self)@, answer@),
            !step.accepts(answer@) ==> r == Err::<InitStep, WebSocketError>(
                WebSocketError::MessageReceiveError,
            ) && final(self)@ == old(self)@,
    {
        match step {
            InitStep::Login => Ok(InitStep::ChainId),
            InitStep::ChainId => match ChainGetter::chain_id_of(answer) {
                Ok(id) => {
                    self.chain_id = Some(id);
                    Ok(InitStep::DatabaseApi)
                },
                Err(e) => Err(e),
            },
            InitStep::DatabaseApi => match ChainGetter::chain_api_id_of(answer) {
                Ok(id) => {
                    self.apis.set_database_api(id);
                    Ok(InitStep::NetworkApi)
                },
                Err(e) => Err(e),
            },
            InitStep::NetworkApi => match ChainGetter::chain_api_id_of(answer) {
                Ok(id) => {
                    self.apis.set_network_api(id);
                    Ok(InitStep::HistoryApi)
                },
                Err(e) => Err(e),
            },
            InitStep::HistoryApi => match ChainGetter::chain_api_id_of(answer) {
                Ok(id) => {
                    self.apis.set_history_api(id);
                    Ok(InitStep::CryptoApi)
                },
                Err(e) => Err(e),
            },
            InitStep::CryptoApi => match ChainGetter::chain_api_id_of(answer) {
                Ok(id) => {
                    self.apis.set_crypto_api(id);
                    Ok(InitStep::Done)
                },
                Err(e) => Err(e),
            },
            InitStep::Done => Ok(InitStep::Done),
        }
    }

    /// `subscribe_to_account`, first step: the id of the subscription and the
    /// two requests that start the watch, in the order in which they are
    /// sent. Where the subscriptions have no socket service the result is
    /// `SubscribingError`.
    pub fn subscribe_to_account(&self, accounts: &Vec<String>) -> (r: Result<
        (u64, Json, Json),
        WebSocketError,
    >)
        ensures
            match r {
                Ok((id, first, second)) => {
                    &&& self@.attached
                    &&& id == self@.callback_id_counter
                    &&& first@ == subscribe_callback_request(id)
                    &&& second@ == crate::getters::objects_request(accounts@)
                },
                Err(e) => !self@.attached && e == WebSocketError::SubscribingError,
            },
    {
        match self.chain_subscriptions().get_full_accounts(self.callback_id_counter, accounts) {
            Ok((first, second)) => Ok((self.callback_id_counter, first, second)),
            Err(_) => Err(WebSocketError::SubscribingError),
        }
    }

    /// `subscribe_to_account`, last step: what came of sending the two
    /// requests. After a success, where the client has the queues to a
    /// dispatch loop, the result is the id under which the callback is
    /// registered, and the next subscription gets the id after it. In every
    /// other case the result is `SubscribingError` and the id is not used up.
    pub fn on_subscription_sent(&mut self, sent: Result<(), WebSocketError>) -> (r: Result<
        u64,
        WebSocketError,
    >)
        requires
            sent is Ok && old(self)@.callback_channel ==> old(self)@.callback_id_counter
                < u64::MAX,
        ensures
            sent is Ok && old(self)@.callback_channel ==> r == Ok::<u64, WebSocketError>(
                old(self)@.callback_id_counter,
            ) && final(self)@ == (ClientView {
                callback_id_counter: (old(self)@.callback_id_counter + 1) as u64,
                ..old(self)@
            }),
            !(sent is Ok && old(self)@.callback_channel) ==> r == Err::<u64, WebSocketError>(
                WebSocketError::SubscribingError,
            ) && final(self)@ == old(self)@,
    {
        match sent {
            Ok(_) => {
                if self.callback_channel {
                    let id = self.callback_id_counter;
                    self.callback_id_counter = id + 1;
                    Ok(id)
                } else {
                    Err(WebSocketError::SubscribingError)
                }
            },
            Err(_) => Err(WebSocketError::SubscribingError),
        }
    }
}

} // verus!
