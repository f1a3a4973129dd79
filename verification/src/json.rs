//! JSON documents as plain values.
//!
//! Every message that travels through the client is a [`Json`] tree. The tree
//! mirrors the data model of `serde_json`: numbers keep the three forms that
//! `serde_json` distinguishes, and an object is the list of its members. A
//! tree that is built by hand keeps its members as they were given. A tree
//! that was read from a text has them as `serde_json`'s map hands them out:
//! in the order of their names, a repeated name once, with its last value.
//! Contracts speak of the mathematical view [`JsonValue`].

use vstd::prelude::*;

verus! {

/// A JSON number.
#[derive(Debug, PartialEq)]
pub enum JsonNumber {
    /// A non-negative integer that fits in 64 bits.
    PosInt(u64),
    /// A negative integer that fits in 64 bits.
    NegInt(i64),
    /// Any other number, held as the bit pattern of its IEEE 754 double.
    Float(u64),
}

/// A JSON document.
#[derive(Debug, PartialEq)]
pub enum Json {
    Null,
    Bool(bool),
    Number(JsonNumber),
    Text(String),
    Array(Vec<Json>),
    /// The members of an object, as a list of names and values. A lookup
    /// takes the first member of a name.
    Object(Vec<(String, Json)>),
}

/// The mathematical value of a [`JsonNumber`].
pub ghost enum NumberValue {
    PosInt(u64),
    NegInt(i64),
    Float(u64),
}

/// The mathematical value of a [`Json`] document.
pub ghost enum JsonValue {
    Null,
    Bool(bool),
    Number(NumberValue),
    Text(Seq<char>),
    Array(Seq<JsonValue>),
    Object(Seq<(Seq<char>, JsonValue)>),
}

/// The value of the first member named `key` among `members[from..]`.
pub open spec fn member_from(
    members: Seq<(Seq<char>, JsonValue)>,
    key: Seq<char>,
    from: int,
) -> Option<JsonValue>
    decreases members.len() - from,
{
    if from < 0 || from >= members.len() {
        None
    } else if members[from].0 == key {
        Some(members[from].1)
    } else {
        member_from(members, key, from + 1)
    }
}

impl JsonValue {
    /// The value of the first member named `key`, if this is an object that has one.
    pub open spec fn member(self, key: Seq<char>) -> Option<JsonValue> {
        match self {
            JsonValue::Object(members) => member_from(members, key, 0),
            _ => None,
        }
    }

    /// The number as a `u64`, if this is a non-negative integer that fits.
    pub open spec fn as_u64(self) -> Option<u64> {
        match self {
            JsonValue::Number(NumberValue::PosInt(n)) => Some(n),
            _ => None,
        }
    }

    /// The characters of a JSON string.
    pub open spec fn as_text(self) -> Option<Seq<char>> {
        match self {
            JsonValue::Text(t) => Some(t),
            _ => None,
        }
    }

    /// The items of a JSON array.
    pub open spec fn as_array(self) -> Option<Seq<JsonValue>> {
        match self {
            JsonValue::Array(items) => Some(items),
            _ => None,
        }
    }
}

impl View for JsonNumber {
    type V = NumberValue;

    open spec fn view(&self) -> NumberValue {
        match self {
            JsonNumber::PosInt(n) => NumberValue::PosInt(*n),
            JsonNumber::NegInt(n) => NumberValue::NegInt(*n),
            JsonNumber::Float(bits) => NumberValue::Float(*bits),
        }
    }
}

impl View for Json {
    type V = JsonValue;

    open spec fn view(&self) -> JsonValue
        decreases self,
    {
        match self {
            Json::Null => JsonValue::Null,
            Json::Bool(b) => JsonValue::Bool(*b),
            Json::Number(n) => JsonValue::Number(n@),
            Json::Text(t) => JsonValue::Text(t@),
            Json::Array(items) => JsonValue::Array(
                Seq::new(
                    items@.len(),
                    |i: int|
                        if 0 <= i < items@.len() {
                            items@[i]@
                        } else {
                            JsonValue::Null
                        },
                ),
            ),
            Json::Object(members) => JsonValue::Object(
                Seq::new(
                    members@.len(),
                    |i: int|
                        if 0 <= i < members@.len() {
                            (members@[i].0@, members@[i].1@)
                        } else {
                            (Seq::empty(), JsonValue::Null)
                        },
                ),
            ),
        }
    }
}

/// The values of a vector of documents.
pub open spec fn values_of(items: Seq<Json>) -> Seq<JsonValue> {
    Seq::new(items.len(), |i: int| items[i]@)
}

/// The names and values of a vector of object members.
pub open spec fn members_of(members: Seq<(String, Json)>) -> Seq<(Seq<char>, JsonValue)> {
    Seq::new(members.len(), |i: int| (members[i].0@, members[i].1@))
}

/// The value of an array is the sequence of the values of its items.
pub proof fn lemma_array_value(items: Vec<Json>)
    ensures
        Json::Array(items)@ == JsonValue::Array(values_of(items@)),
{
    reveal_with_fuel(<Json as View>::view, 2);
    assert(Json::Array(items)@->Array_0 =~= values_of(items@));
}

/// The value of an object is the sequence of its members' names and values.
pub proof fn lemma_object_value(members: Vec<(String, Json)>)
    ensures
        Json::Object(members)@ == JsonValue::Object(members_of(members@)),
{
    reveal_with_fuel(<Json as View>::view, 2);
    assert(Json::Object(members)@->Object_0 =~= members_of(members@));
}

/// Whether two strings hold the same characters.
pub fn same_text(a: &str, b: &str) -> (same: bool)
    ensures
        same == (a@ == b@),
{
    let x = a.as_bytes();
    let y = b.as_bytes();
    proof {
        vstd::utf8::encode_utf8_decode_utf8(a@);
        vstd::utf8::encode_utf8_decode_utf8(b@);
    }
    if x.len() != y.len() {
        return false;
    }
    let mut i: usize = 0;
    while i < x.len()
        invariant
            i <= x.len(),
            x.len() == y.len(),
            x@ == vstd::utf8::encode_utf8(a@),
            y@ == vstd::utf8::encode_utf8(b@),
            forall|k: int| 0 <= k < i ==> x@[k] == y@[k],
        decreases x.len() - i,
    {
        if x[i] != y[i] {
            return false;
        }
        i += 1;
    }
    assert(x@ =~= y@);
    true
}

impl JsonNumber {
    /// A copy of the number.
    pub fn duplicate(&self) -> (copy: JsonNumber)
        ensures
            copy@ == self@,
    {
        match self {
            JsonNumber::PosInt(n) => JsonNumber::PosInt(*n),
            JsonNumber::NegInt(n) => JsonNumber::NegInt(*n),
            JsonNumber::Float(bits) => JsonNumber::Float(*bits),
        }
    }
}

impl Json {
    /// The JSON string that holds the characters of `s`.
    pub fn text(s: &str) -> (doc: Json)
        ensures
            doc@ == JsonValue::Text(s@),
    {
        Json::Text(s.to_owned())
    }

    /// The JSON number `n`.
    pub fn number(n: u64) -> (doc: Json)
        ensures
            doc@ == JsonValue::Number(NumberValue::PosInt(n)),
    {
        Json::Number(JsonNumber::PosInt(n))
    }

    /// Whether the document is the JSON string that holds exactly `s`.
    pub fn is_text(&self, s: &str) -> (yes: bool)
        ensures
            yes == (self@ == JsonValue::Text(s@)),
    {
        match self {
            Json::Text(t) => same_text(t.as_str(), s),
            _ => false,
        }
    }

    /// The number as a `u64`, if the document is a non-negative integer that fits.
    pub fn as_u64(&self) -> (n: Option<u64>)
        ensures
            n == self@.as_u64(),
    {
        match self {
            Json::Number(JsonNumber::PosInt(n)) => Some(*n),
            _ => None,
        }
    }

    /// The characters of the document, if it is a JSON string.
    pub fn as_text(&self) -> (t: Option<&String>)
        ensures
            match t {
                Some(s) => self@.as_text() == Some(s@),
                None => self@.as_text() is None,
            },
    {
        match self {
            Json::Text(t) => Some(t),
            _ => None,
        }
    }

    /// The items of the document, if it is a JSON array.
    pub fn as_array(&self) -> (a: Option<&Vec<Json>>)
        ensures
            match a {
                Some(items) => self@.as_array() == Some(values_of(items@)) && *self == Json::Array(
                    *items,
                ),
                None => self@.as_array() is None,
            },
    {
        match self {
            Json::Array(items) => {
                proof {
                    lemma_array_value(*items);
                }
                Some(items)
            },
            _ => None,
        }
    }

    /// The value of the first member named `key`, if the document is an
    /// object that has one.
    pub fn member(&self, key: &str) -> (found: Option<&Json>)
        ensures
            match found {
                Some(doc) => self@.member(key@) == Some(doc@),
                None => self@.member(key@) is None,
            },
    {
        match self {
            Json::Object(members) => {
                let ghost all = members_of(members@);
                proof {
                    lemma_object_value(*members);
                }
                let mut i: usize = 0;
                while i < members.len()
                    invariant
                        i <= members.len(),
                        all == members_of(members@),
                        self@ == JsonValue::Object(all),
                        member_from(all, key@, 0) == member_from(all, key@, i as int),
                    decreases members.len() - i,
                {
                    if same_text(members[i].0.as_str(), key) {
                        return Some(&members[i].1);
                    }
                    i += 1;
                }
                None
            },
            _ => None,
        }
    }

    /// A deep copy of the document.
    pub fn duplicate(&self) -> (copy: Json)
        ensures
            copy@ == self@,
        decreases self,
    {
        match self {
            Json::Null => Json::Null,
            Json::Bool(b) => Json::Bool(*b),
            Json::Number(n) => Json::Number(n.duplicate()),
            Json::Text(t) => Json::Text(t.clone()),
            Json::Array(items) => {
                let mut out: Vec<Json> = Vec::new();
                let mut i: usize = 0;
                while i < items.len()
                    invariant
                        *self == Json::Array(*items),
                        i <= items.len(),
                        out.len() == i,
                        forall|k: int| 0 <= k < i ==> out@[k]@ == items@[k]@,
                    decreases items.len() - i,
                {
                    proof {
                        vstd::std_specs::vec::axiom_vec_index_decreases(*items, i as int);
                        assert(decreases_to!(*self => self->Array_0));
                    }
                    let item = items[i].duplicate();
                    out.push(item);
                    i += 1;
                }
                proof {
                    lemma_array_value(out);
                    lemma_array_value(*items);
                    assert(values_of(out@) =~= values_of(items@));
                }
                Json::Array(out)
            },
            Json::Object(members) => {
                let mut out: Vec<(String, Json)> = Vec::new();
                let mut i: usize = 0;
                while i < members.len()
                    invariant
                        *self == Json::Object(*members),
                        i <= members.len(),
                        out.len() == i,
                        forall|k: int|
                            0 <= k < i ==> out@[k].0@ == members@[k].0@ && out@[k].1@
                                == members@[k].1@,
                    decreases members.len() - i,
                {
                    proof {
                        vstd::std_specs::vec::axiom_vec_index_decreases(*members, i as int);
                        assert(decreases_to!(*self => self->Object_0));
                    }
                    let value = members[i].1.duplicate();
                    out.push((members[i].0.clone(), value));
                    i += 1;
                }
                proof {
                    lemma_object_value(out);
                    lemma_object_value(*members);
                    assert(members_of(out@) =~= members_of(members@));
                }
                Json::Object(out)
            },
        }
    }
}

/// `serde_json::Value`, as an opaque type: a document as `serde_json` holds
/// it, before it is moved into a [`Json`] tree.
#[verifier::external_type_specification]
#[verifier::external_body]
pub struct ExValue(serde_json::Value);

/// `serde_json::Number`, as an opaque type: a number as `serde_json` holds
/// it, before it is moved into a [`JsonNumber`].
#[verifier::external_type_specification]
#[verifier::external_body]
pub struct ExNumber(serde_json::Number);

/// The document that `serde_json::from_str` reads from a text, or `None`
/// where no document comes of it: the text is not one JSON document, the
/// document is nested too deeply for the reader, or it holds a number that
/// `serde_json` gives in none of its three forms.
pub uninterp spec fn json_of_text(text: Seq<char>) -> Option<JsonValue>;

/// Moves a number of `serde_json` into a [`JsonNumber`], by the three forms
/// that `serde_json::Number` tells apart with `as_u64`, `as_i64` and `as_f64`;
/// `None` where it gives the number in none of them. Nothing is claimed of
/// the result.
#[verifier::external_body]
fn number_from_serde(n: &serde_json::Number) -> Option<JsonNumber> {
    if let Some(u) = n.as_u64() {
        Some(JsonNumber::PosInt(u))
    } else if let Some(i) = n.as_i64() {
        Some(JsonNumber::NegInt(i))
    } else {
        n.as_f64().map(|x| JsonNumber::Float(x.to_bits()))
    }
}

/// Moves a `serde_json::Value` into a [`Json`] tree, variant by variant; the
/// members of an object come in the order in which `serde_json::Map` hands
/// them out. `None` where a number in it could not be moved. Nothing is
/// claimed of the result.
#[verifier::external_body]
fn json_from_serde(value: serde_json::Value) -> Option<Json> {
    Some(match value {
        serde_json::Value::Null => Json::Null,
        serde_json::Value::Bool(b) => Json::Bool(b),
        serde_json::Value::Number(n) => Json::Number(number_from_serde(&n)?),
        serde_json::Value::String(s) => Json::Text(s),
        serde_json::Value::Array(a) => Json::Array(
            a.into_iter().map(json_from_serde).collect::<Option<Vec<Json>>>()?,
        ),
        serde_json::Value::Object(m) => Json::Object(
            m.into_iter().map(|(k, v)| Some((k, json_from_serde(v)?))).collect::<Option<_>>()?,
        ),
    })
}

/// Calls `serde_json::from_str` for a `serde_json::Value`. The result is the
/// document that `serde_json` reads from `text`, and `None` where it reports
/// an error or the document could not be moved into a tree; what comes of a
/// text depends on the text alone.
#[verifier::external_body]
pub(crate) fn read_json(text: &str) -> (doc: Option<Json>)
    ensures
        match doc {
            Some(d) => json_of_text(text@) == Some(d@),
            None => json_of_text(text@) is None,
        },
{
    match serde_json::from_str::<serde_json::Value>(text) {
        Ok(value) => json_from_serde(value),
        Err(_) => None,
    }
}

} // verus!
