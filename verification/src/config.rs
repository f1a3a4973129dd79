//! The configuration of the client: how long each wait may last, and the
//! names of the node's custom APIs.
//!
//! A `Config` is built once, when the process starts, and handed by reference
//! to whatever needs a timeout or a name.

use vstd::prelude::*;

verus! {

/// The waits whose length the configuration fixes.
#[derive(Debug, Clone, Copy, PartialEq, Eq, Structural)]
pub enum Timeout {
    /// Writing one message to the socket.
    WebSocketSend,
    /// Reading one frame from the socket.
    WebSocketReceive,
    /// Looking for a request on a control queue.
    WebsocketClose,
}

/// The length of each wait, in milliseconds.
#[derive(Debug, Clone, Copy, PartialEq, Eq, Structural)]
pub struct Timeouts {
    ws_send: u64,
    ws_receive: u64,
    ws_close: u64,
}

/// A custom API of the node: its number and its name.
#[derive(Debug)]
pub struct CustomApi {
    pub id: u8,
    pub name: String,
}

/// The configuration of the client.
#[derive(Debug)]
pub struct Config {
    timeouts: Timeouts,
    custom_apis: Vec<CustomApi>,
}

/// The mathematical value of a [`Config`].
pub ghost struct ConfigView {
    pub timeouts: Timeouts,
    /// The number and the name of each custom API, in the order of the
    /// configuration.
    pub custom_apis: Seq<(u8, Seq<char>)>,
}

/// The name of the first API numbered `id` among `apis[from..]`, or the empty
/// name where there is none.
pub open spec fn api_name_from(apis: Seq<(u8, Seq<char>)>, id: u8, from: int) -> Seq<char>
    decreases apis.len() - from,
{
    if from < 0 || from >= apis.len() {
        Seq::empty()
    } else if apis[from].0 == id {
        apis[from].1
    } else {
        api_name_from(apis, id, from + 1)
    }
}

impl Timeouts {
    /// The timeouts with the given lengths, in milliseconds.
    pub fn new(ws_send: u64, ws_receive: u64, ws_close: u64) -> (t: Timeouts)
        ensures
            t.length(Timeout::WebSocketSend) == ws_send,
            t.length(Timeout::WebSocketReceive) == ws_receive,
            t.length(Timeout::WebsocketClose) == ws_close,
    {
        Timeouts { ws_send, ws_receive, ws_close }
    }

    /// The length of a wait, in milliseconds.
    pub closed spec fn length(self, timeout: Timeout) -> u64 {
        match timeout {
            Timeout::WebSocketSend => self.ws_send,
            Timeout::WebSocketReceive => self.ws_receive,
            Timeout::WebsocketClose => self.ws_close,
        }
    }

    /// The length of a wait, in milliseconds.
    pub fn get_timeout(&self, timeout: Timeout) -> (millis: u64)
        ensures
            millis == self.length(timeout),
    {
        match timeout {
            Timeout::WebSocketSend => self.ws_send,
            Timeout::WebSocketReceive => self.ws_receive,
            Timeout::WebsocketClose => self.ws_close,
        }
    }
}

impl CustomApi {
    /// The custom API numbered `id` and called `name`.
    pub fn new(id: u8, name: String) -> (api: CustomApi)
        ensures
            api.id == id,
            api.name == name,
    {
        CustomApi { id, name }
    }
}

/// The numbers and names of a list of custom APIs.
pub open spec fn apis_of(apis: Seq<CustomApi>) -> Seq<(u8, Seq<char>)> {
    Seq::new(apis.len(), |i: int| (apis[i].id, apis[i].name@))
}

impl View for Config {
    type V = ConfigView;

    closed spec fn view(&self) -> ConfigView {
        ConfigView { timeouts: self.timeouts, custom_apis: apis_of(self.custom_apis@) }
    }
}

impl Config {
    /// The configuration with the given timeouts and custom APIs.
    pub fn new(timeouts: Timeouts, custom_apis: Vec<CustomApi>) -> (config: Config)
        ensures
            config@.timeouts == timeouts,
            config@.custom_apis == apis_of(custom_apis@),
    {
        Config { timeouts, custom_apis }
    }

    /// The custom APIs, in the order of the configuration.
    pub fn custom_apis(&self) -> (apis: &Vec<CustomApi>)
        ensures
            apis_of(apis@) == self@.custom_apis,
    {
        &self.custom_apis
    }

    /// The name of the first custom API numbered `id`, or the empty name
    /// where the configuration has none.
    pub fn get_custom_api_name(&self, id: u8) -> (name: String)
        ensures
            name@ == api_name_from(self@.custom_apis, id, 0),
    {
        let ghost apis = self@.custom_apis;
        let mut i: usize = 0;
        while i < self.custom_apis.len()
            invariant
                i <= self.custom_apis.len(),
                apis == apis_of(self.custom_apis@),
                api_name_from(apis, id, 0) == api_name_from(apis, id, i as int),
            decreases self.custom_apis.len() - i,
        {
            if self.custom_apis[i].id == id {
                return self.custom_apis[i].name.clone();
            }
            i += 1;
        }
        String::new()
    }

    /// The length of a wait, in milliseconds.
    pub fn get_timeout(&self, timeout: Timeout) -> (millis: u64)
        ensures
            millis == self@.timeouts.length(timeout),
    {
        self.timeouts.get_timeout(timeout)
    }
}

} // verus!
