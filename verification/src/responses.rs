//! The envelope of a push notification.
//!
//! The node sends two kinds of text frame: the answer to a request,
//! `{"id": .., "result": ..}`, and a notification for a subscription,
//! `{"method": "notice", "params": [callback_id, body]}`. A frame is read as an
//! envelope when it is an object with a string `method` and an array `params`.

use crate::json::{same_text, values_of, Json, JsonValue};
use vstd::prelude::*;

verus! {

/// A frame read as an envelope: its method and its parameters.
#[derive(Debug)]
pub struct ChainResponse {
    method: String,
    params: Vec<Json>,
}

/// The mathematical value of a [`ChainResponse`].
pub ghost struct Envelope {
    pub method: Seq<char>,
    pub params: Seq<JsonValue>,
}

impl Envelope {
    /// Whether the envelope announces a notification.
    pub open spec fn is_notice(self) -> bool {
        self.method == "notice"@
    }

    /// The callback that the notification is for: the first parameter, where
    /// it is a non-negative integer of 64 bits.
    pub open spec fn callback_id(self) -> Option<u64> {
        if self.params.len() > 0 {
            self.params[0].as_u64()
        } else {
            None
        }
    }

    /// The body of the notification: the second parameter.
    pub open spec fn body(self) -> Option<JsonValue> {
        if self.params.len() > 1 {
            Some(self.params[1])
        } else {
            None
        }
    }

    /// The callback and the body, where the envelope has both.
    pub open spec fn notification(self) -> Option<(u64, JsonValue)> {
        match (self.callback_id(), self.body()) {
            (Some(id), Some(body)) => Some((id, body)),
            _ => None,
        }
    }
}

/// The envelope that a document holds: `Some` for an object whose first
/// member `method` is a string and whose first member `params` is an array.
pub open spec fn envelope_of(doc: JsonValue) -> Option<Envelope> {
    match (doc.member("method"@), doc.member("params"@)) {
        (Some(JsonValue::Text(method)), Some(JsonValue::Array(params))) => Some(
            Envelope { method, params },
        ),
        _ => None,
    }
}

impl View for ChainResponse {
    type V = Envelope;

    closed spec fn view(&self) -> Envelope {
        Envelope { method: self.method@, params: values_of(self.params@) }
    }
}

impl ChainResponse {
    /// The envelope with the given method and parameters.
    pub fn new(method: String, params: Vec<Json>) -> (envelope: ChainResponse)
        ensures
            envelope@.method == method@,
            envelope@.params == values_of(params@),
    {
        ChainResponse { method, params }
    }

    /// Reads a document as an envelope.
    pub fn from_json(doc: &Json) -> (envelope: Option<ChainResponse>)
        ensures
            match envelope {
                Some(e) => envelope_of(doc@) == Some(e@),
                None => envelope_of(doc@) is None,
            },
    {
        let method = match doc.member("method") {
            Some(m) => match m.as_text() {
                Some(t) => t.clone(),
                None => {
                    return None;
                },
            },
            None => {
                return None;
            },
        };
        let items = match doc.member("params") {
            Some(p) => match p.as_array() {
                Some(items) => items,
                None => {
                    return None;
                },
            },
            None => {
                return None;
            },
        };
        let mut params: Vec<Json> = Vec::new();
        let mut i: usize = 0;
        while i < items.len()
            invariant
                i <= items.len(),
                params.len() == i,
                forall|k: int| 0 <= k < i ==> params@[k]@ == items@[k]@,
            decreases items.len() - i,
        {
            let item = items[i].duplicate();
            params.push(item);
            i += 1;
        }
        assert(values_of(params@) =~= values_of(items@));
        Some(ChainResponse { method, params })
    }

    /// Whether the envelope announces a notification for a subscription.
    pub fn is_subcription_response(&self) -> (yes: bool)
        ensures
            yes == self@.is_notice(),
    {
        same_text(self.method.as_str(), "notice")
    }

    /// The callback that the notification is for.
    pub fn get_callback_id(&self) -> (id: Option<u64>)
        ensures
            id == self@.callback_id(),
    {
        if self.params.len() > 0 {
            self.params[0].as_u64()
        } else {
            None
        }
    }

    /// A copy of the body of the notification.
    pub fn get_body_response(&self) -> (body: Option<Json>)
        ensures
            match body {
                Some(b) => self@.body() == Some(b@),
                None => self@.body() is None,
            },
    {
        if self.params.len() > 1 {
            Some(self.params[1].duplicate())
        } else {
            None
        }
    }

    /// The callback and a copy of the body, where the envelope has both.
    pub fn get_parsed_cb_response(&self) -> (parsed: Option<(u64, Json)>)
        ensures
            match parsed {
                Some((id, body)) => self@.notification() == Some((id, body@)),
                None => self@.notification() is None,
            },
    {
        let id = match self.get_callback_id() {
            Some(id) => id,
            None => {
                return None;
            },
        };
        let body = match self.get_body_response() {
            Some(body) => body,
            None => {
                return None;
            },
        };
        Some((id, body))
    }
}

} // verus!
