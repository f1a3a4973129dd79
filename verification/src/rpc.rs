//! The wire format of a request and of its answer.
//!
//! A request is `{"method": "call", "params": [api, name, arguments], "id": 1}`.
//! An answer is `{"id": .., "result": ..}`.

use crate::json::{
    lemma_array_value, lemma_object_value, members_of, values_of, Json, JsonValue, NumberValue,
};
use vstd::prelude::*;

verus! {

/// The request that calls the method `name` of the API numbered `api` with
/// the given arguments.
pub open spec fn call_value(api: u64, name: Seq<char>, arguments: Seq<JsonValue>) -> JsonValue {
    JsonValue::Object(
        seq![
            ("method"@, JsonValue::Text("call"@)),
            (
                "params"@,
                JsonValue::Array(
                    seq![
                        JsonValue::Number(NumberValue::PosInt(api)),
                        JsonValue::Text(name),
                        JsonValue::Array(arguments),
                    ],
                ),
            ),
            ("id"@, JsonValue::Number(NumberValue::PosInt(1))),
        ],
    )
}

/// The JSON strings that hold the given texts.
pub open spec fn texts_value(texts: Seq<String>) -> Seq<JsonValue> {
    Seq::new(texts.len(), |i: int| JsonValue::Text(texts[i]@))
}

/// The number that an answer gives under `key`, where it is an integer from
/// 0 to 255.
pub open spec fn small_number(doc: JsonValue, key: Seq<char>) -> Option<u8> {
    match doc.member(key) {
        Some(JsonValue::Number(NumberValue::PosInt(n))) if n <= 255 => Some(n as u8),
        _ => None,
    }
}

/// The result of an answer whose result is a string: `Some` where the answer
/// has an `id` from 0 to 255 and a string `result`.
pub open spec fn text_result(doc: JsonValue) -> Option<Seq<char>> {
    match (small_number(doc, "id"@), doc.member("result"@)) {
        (Some(_), Some(JsonValue::Text(t))) => Some(t),
        _ => None,
    }
}

/// The result of an answer whose result is a small number: `Some` where the
/// answer has an `id` and a `result` that are both integers from 0 to 255.
pub open spec fn number_result(doc: JsonValue) -> Option<u8> {
    match (small_number(doc, "id"@), small_number(doc, "result"@)) {
        (Some(_), Some(n)) => Some(n),
        _ => None,
    }
}

/// Builds the request that calls the method `name` of the API numbered `api`
/// with the given arguments.
pub fn call(api: u64, name: &str, arguments: Vec<Json>) -> (request: Json)
    ensures
        request@ == call_value(api, name@, values_of(arguments@)),
{
    let ghost args = values_of(arguments@);
    proof {
        lemma_array_value(arguments);
    }
    let mut params: Vec<Json> = Vec::new();
    params.push(Json::number(api));
    params.push(Json::text(name));
    params.push(Json::Array(arguments));
    proof {
        lemma_array_value(params);
        assert(values_of(params@) =~= seq![
            JsonValue::Number(NumberValue::PosInt(api)),
            JsonValue::Text(name@),
            JsonValue::Array(args),
        ]);
    }
    let mut members: Vec<(String, Json)> = Vec::new();
    members.push(("method".to_owned(), Json::text("call")));
    members.push(("params".to_owned(), Json::Array(params)));
    members.push(("id".to_owned(), Json::number(1)));
    proof {
        lemma_object_value(members);
        assert(members_of(members@) =~= call_value(api, name@, args)->Object_0);
    }
    Json::Object(members)
}

/// Builds the JSON array of the JSON strings that hold the given texts.
pub fn text_array(list: &Vec<String>) -> (array: Json)
    ensures
        array@ == JsonValue::Array(texts_value(list@)),
{
    let mut items: Vec<Json> = Vec::new();
    let mut i: usize = 0;
    while i < list.len()
        invariant
            i <= list.len(),
            items.len() == i,
            forall|k: int| 0 <= k < i ==> items@[k]@ == JsonValue::Text(list@[k]@),
        decreases list.len() - i,
    {
        items.push(Json::Text(list[i].clone()));
        i += 1;
    }
    proof {
        lemma_array_value(items);
        assert(values_of(items@) =~= texts_value(list@));
    }
    Json::Array(items)
}

/// Reads the number that an answer gives under `key`.
fn small_number_of(doc: &Json, key: &str) -> (n: Option<u8>)
    ensures
        n == small_number(doc@, key@),
{
    match doc.member(key) {
        Some(value) => match value.as_u64() {
            Some(n) => {
                if n <= 255 {
                    Some(n as u8)
                } else {
                    None
                }
            },
            None => None,
        },
        None => None,
    }
}

/// Reads the result of an answer whose result is a string.
pub fn text_result_of(doc: &Json) -> (result: Option<String>)
    ensures
        match result {
            Some(t) => text_result(doc@) == Some(t@),
            None => text_result(doc@) is None,
        },
{
    if small_number_of(doc, "id").is_none() {
        return None;
    }
    match doc.member("result") {
        Some(value) => match value.as_text() {
            Some(t) => Some(t.clone()),
            None => None,
        },
        None => None,
    }
}

/// Reads the result of an answer whose result is a small number.
pub fn number_result_of(doc: &Json) -> (result: Option<u8>)
    ensures
        result == number_result(doc@),
{
    if small_number_of(doc, "id").is_none() {
        return None;
    }
    small_number_of(doc, "result")
}

} // verus!
