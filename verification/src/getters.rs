//! Questions to the node that are answered once: the chain's id, the number
//! of an API, a list of objects.
//!
//! A getter builds the request and reads the answer. Sending the one and
//! waiting for the other is the caller's part.

use crate::apis::GrapheneApi;
use crate::config::Config;
use crate::errors::WebSocketError;
use crate::json::{Json, JsonValue};
use crate::rpc::{
    call, call_value, number_result, number_result_of, text_array, text_result, text_result_of,
    texts_value,
};
use vstd::prelude::*;

verus! {

/// The getter of a client. It asks nothing before it has been given the
/// socket service.
#[derive(Debug, Clone, Copy, PartialEq, Eq, Structural)]
pub struct ChainGetter {
    attached: bool,
}

/// The request for the chain's id.
pub open spec fn chain_id_request() -> JsonValue {
    call_value(0, "get_chain_id"@, Seq::empty())
}

/// The request for the number of the API called `name`.
pub open spec fn api_id_request(name: Seq<char>) -> JsonValue {
    call_value(1, name, Seq::empty())
}

/// The request for the objects with the given ids.
pub open spec fn objects_request(ids: Seq<String>) -> JsonValue {
    call_value(0, "get_objects"@, seq![JsonValue::Array(texts_value(ids))])
}

impl ChainGetter {
    /// Whether the getter has been given the socket service.
    pub closed spec fn attached(&self) -> bool {
        self.attached
    }

    /// A getter without a socket service.
    pub fn new() -> (getter: ChainGetter)
        ensures
            !getter.attached(),
    {
        ChainGetter { attached: false }
    }

    /// Gives the getter the socket service.
    pub fn set_ws_connection(&mut self)
        ensures
            final(self).attached(),
    {
        self.attached = true;
    }

    /// The request for the chain's id, or `NotConnected` where the getter has
    /// no socket service.
    pub fn get_chain_id(&self) -> (r: Result<Json, WebSocketError>)
        ensures
            match r {
                Ok(request) => self.attached() && request@ == chain_id_request(),
                Err(e) => !self.attached() && e == WebSocketError::NotConnected,
            },
    {
        if self.attached {
            let request = call(0, "get_chain_id", Vec::new());
            assert(crate::json::values_of(Seq::<Json>::empty()) =~= Seq::empty());
            Ok(request)
        } else {
            Err(WebSocketError::NotConnected)
        }
    }

    /// The chain's id, read from the answer to the request for it. An answer
    /// of another form is a `MessageReceiveError`.
    pub fn chain_id_of(answer: &Json) -> (r: Result<String, WebSocketError>)
        ensures
            match r {
                Ok(id) => text_result(answer@) == Some(id@),
                Err(e) => text_result(answer@) is None && e == WebSocketError::MessageReceiveError,
            },
    {
        match text_result_of(answer) {
            Some(id) => Ok(id),
            None => Err(WebSocketError::MessageReceiveError),
        }
    }

    /// The request for the number of an API, or `NotConnected` where the
    /// getter has no socket service.
    pub fn get_chain_api_id(&self, api: GrapheneApi, config: &Config) -> (r: Result<
        Json,
        WebSocketError,
    >)
        ensures
            match r {
                Ok(request) => self.attached() && request@ == api_id_request(
                    api.name_text(config@),
                ),
                Err(e) => !self.attached() && e == WebSocketError::NotConnected,
            },
    {
        if self.attached {
            let name = api.name(config);
            let request = call(1, name.as_str(), Vec::new());
            assert(crate::json::values_of(Seq::<Json>::empty()) =~= Seq::empty());
            Ok(request)
        } else {
            Err(WebSocketError::NotConnected)
        }
    }

    /// The number of an API, read from the answer to the request for it. An
    /// answer of another form is a `MessageReceiveError`.
    pub fn chain_api_id_of(answer: &Json) -> (r: Result<u8, WebSocketError>)
        ensures
            r == match number_result(answer@) {
                Some(id) => Ok::<u8, WebSocketError>(id),
                None => Err::<u8, WebSocketError>(WebSocketError::MessageReceiveError),
            },
    {
        match number_result_of(answer) {
            Some(id) => Ok(id),
            None => Err(WebSocketError::MessageReceiveError),
        }
    }

    /// The request for the objects with the given ids, or `NotConnected`
    /// where the getter has no socket service. Whatever the node answers is
    /// accepted.
    pub fn get_chain_objects(&self, objects: &Vec<String>) -> (r: Result<Json, WebSocketError>)
        ensures
            match r {
                Ok(request) => self.attached() && request@ == objects_request(objects@),
                Err(e) => !self.attached() && e == WebSocketError::NotConnected,
            },
    {
        if self.attached {
            let mut arguments: Vec<Json> = Vec::new();
            arguments.push(text_array(objects));
            assert(crate::json::values_of(arguments@) =~= seq![
                JsonValue::Array(texts_value(objects@)),
            ]);
            Ok(call(0, "get_objects", arguments))
        } else {
            Err(WebSocketError::NotConnected)
        }
    }
}

} // verus!
