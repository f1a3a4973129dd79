//! Questions to the node whose answers keep coming: the node pushes a
//! notification whenever a watched account changes.

use crate::errors::WebSocketError;
use crate::getters::objects_request;
use crate::json::{values_of, Json, JsonValue, NumberValue};
use crate::rpc::{call, call_value, text_array, texts_value};
use vstd::prelude::*;

verus! {

/// The subscriptions of a client. It asks nothing before it has been given
/// the socket service.
#[derive(Debug, Clone, Copy, PartialEq, Eq, Structural)]
pub struct ChainSubscriptions {
    attached: bool,
}

/// The request that tells the node under which callback id to push its
/// notifications.
pub open spec fn subscribe_callback_request(callback_id: u64) -> JsonValue {
    call_value(
        0,
        "set_subscribe_callback"@,
        seq![JsonValue::Number(NumberValue::PosInt(callback_id)), JsonValue::Bool(true)],
    )
}

impl ChainSubscriptions {
    /// Whether the subscriptions have been given the socket service.
    pub closed spec fn attached(&self) -> bool {
        self.attached
    }

    /// Subscriptions without a socket service.
    pub fn new() -> (subscriptions: ChainSubscriptions)
        ensures
            !subscriptions.attached(),
    {
        ChainSubscriptions { attached: false }
    }

    /// Gives the subscriptions the socket service.
    pub fn set_ws_connection(&mut self)
        ensures
            final(self).attached(),
    {
        self.attached = true;
    }

    /// The two requests that start the watch on a list of accounts, in the
    /// order in which they are sent: the callback id for the notifications,
    /// then the accounts. `NotConnected` where there is no socket service.
    pub fn get_full_accounts(&self, cb_id: u64, accounts: &Vec<String>) -> (r: Result<
        (Json, Json),
        WebSocketError,
    >)
        ensures
            match r {
                Ok((first, second)) => {
                    &&& self.attached()
                    &&& first@ == subscribe_callback_request(cb_id)
                    &&& second@ == objects_request(accounts@)
                },
                Err(e) => !self.attached() && e == WebSocketError::NotConnected,
            },
    {
        if self.attached {
            let mut first: Vec<Json> = Vec::new();
            first.push(Json::number(cb_id));
            first.push(Json::Bool(true));
            assert(values_of(first@) =~= seq![
                JsonValue::Number(NumberValue::PosInt(cb_id)),
                JsonValue::Bool(true),
            ]);
            let mut second: Vec<Json> = Vec::new();
            second.push(text_array(accounts));
            assert(values_of(second@) =~= seq![JsonValue::Array(texts_value(accounts@))]);
            Ok((call(0, "set_subscribe_callback", first), call(0, "get_objects", second)))
        } else {
            Err(WebSocketError::NotConnected)
        }
    }
}

} // verus!
