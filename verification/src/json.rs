//! JSON documents.
//!
//! Response bodies are parsed by `serde_json`.  What it reads is copied into
//! a tree of this crate's own, [`JsonValue`], and every record is decoded
//! from that tree by verified code.  The mathematical model of a document is
//! [`Json`]; it is the view of a [`JsonValue`].

use vstd::prelude::*;
use crate::text::same_text;

verus! {

/// A JSON number as the parser classifies it: a non-negative integer, a
/// negative integer, or a floating-point number given by its IEEE-754 bits.
#[derive(Debug, Clone, Copy, PartialEq, Eq, Structural)]
pub enum JsonNumber {
    PosInt(u64),
    NegInt(i64),
    Float(u64),
}

/// The non-negative integer that a number is, if it is one.
pub open spec fn number_u64(number: JsonNumber) -> Option<u64> {
    match number {
        JsonNumber::PosInt(n) => Some(n),
        _ => None,
    }
}

/// The integer that a number is, if it is one that fits 32 bits unsigned.
pub open spec fn number_u32(number: JsonNumber) -> Option<u32> {
    match number {
        JsonNumber::PosInt(n) => if n <= u32::MAX {
            Some(n as u32)
        } else {
            None
        },
        _ => None,
    }
}

/// The integer that a number is, if it is one that fits 8 bits unsigned.
pub open spec fn number_u8(number: JsonNumber) -> Option<u8> {
    match number {
        JsonNumber::PosInt(n) => if n <= u8::MAX {
            Some(n as u8)
        } else {
            None
        },
        _ => None,
    }
}

impl JsonNumber {
    /// The number as a non-negative integer.  A negative integer is none,
    /// and neither is a floating-point number, whatever its value.
    pub fn as_u64(&self) -> (n: Option<u64>)
        ensures
            n == number_u64(*self),
    {
        match self {
            JsonNumber::PosInt(n) => Some(*n),
            _ => None,
        }
    }

    /// The number as an integer of 32 bits unsigned.
    pub fn as_u32(&self) -> (n: Option<u32>)
        ensures
            n == number_u32(*self),
    {
        match self {
            JsonNumber::PosInt(n) => if *n <= 0xffff_ffff {
                Some(*n as u32)
            } else {
                None
            },
            _ => None,
        }
    }

    /// The number as an integer of 8 bits unsigned.
    pub fn as_u8(&self) -> (n: Option<u8>)
        ensures
            n == number_u8(*self),
    {
        match self {
            JsonNumber::PosInt(n) => if *n <= 0xff {
                Some(*n as u8)
            } else {
                None
            },
            _ => None,
        }
    }
}

/// The mathematical model of a JSON document.  An object is the sequence of
/// its members, each a key and a document.
pub enum Json {
    Null,
    Bool(bool),
    Number(JsonNumber),
    Text(Seq<char>),
    Array(Seq<Json>),
    Object(Seq<(Seq<char>, Json)>),
}

/// A JSON document.
#[derive(Debug)]
pub enum JsonValue {
    Null,
    Bool(bool),
    Number(JsonNumber),
    Text(String),
    Array(Vec<JsonValue>),
    Object(Vec<(String, JsonValue)>),
}

/// The document that a value holds.
pub open spec fn document_of(value: JsonValue) -> Json
    decreases value,
{
    match value {
        JsonValue::Null => Json::Null,
        JsonValue::Bool(b) => Json::Bool(b),
        JsonValue::Number(n) => Json::Number(n),
        JsonValue::Text(s) => Json::Text(s@),
        JsonValue::Array(items) => Json::Array(documents_of(items@)),
        JsonValue::Object(members) => Json::Object(members_of(members@)),
    }
}

/// The documents that a sequence of values holds, item by item.
pub open spec fn documents_of(values: Seq<JsonValue>) -> Seq<Json>
    decreases values,
{
    if values.len() == 0 {
        Seq::empty()
    } else {
        documents_of(values.drop_last()).push(document_of(values.last()))
    }
}

/// The members that a sequence of keys and values holds, one by one.
pub open spec fn members_of(members: Seq<(String, JsonValue)>) -> Seq<(Seq<char>, Json)>
    decreases members,
{
    if members.len() == 0 {
        Seq::empty()
    } else {
        members_of(members.drop_last()).push((members.last().0@, document_of(members.last().1)))
    }
}

impl View for JsonValue {
    type V = Json;

    open spec fn view(&self) -> Json {
        document_of(*self)
    }
}

/// The documents of a sequence of values are the documents of its items.
pub proof fn lemma_documents_of(values: Seq<JsonValue>)
    ensures
        documents_of(values).len() == values.len(),
        forall|i: int|
            0 <= i < values.len() ==> (#[trigger] documents_of(values)[i]) == values[i]@,
    decreases values.len(),
{
    if values.len() > 0 {
        lemma_documents_of(values.drop_last());
        assert forall|i: int| 0 <= i < values.len() implies (#[trigger] documents_of(values)[i])
            == values[i]@ by {
            if i < values.len() - 1 {
                assert(values.drop_last()[i] == values[i]);
                assert(documents_of(values)[i] == documents_of(values.drop_last())[i]);
            }
        }
    }
}

/// The members of a sequence of keys and values are its items, each with
/// the document of its value.
pub proof fn lemma_members_of(members: Seq<(String, JsonValue)>)
    ensures
        members_of(members).len() == members.len(),
        forall|i: int|
            0 <= i < members.len() ==> (#[trigger] members_of(members)[i]) == (
                members[i].0@,
                members[i].1@,
            ),
    decreases members.len(),
{
    if members.len() > 0 {
        lemma_members_of(members.drop_last());
        assert forall|i: int| 0 <= i < members.len() implies (#[trigger] members_of(members)[i])
            == (members[i].0@, members[i].1@) by {
            if i < members.len() - 1 {
                assert(members.drop_last()[i] == members[i]);
                assert(members_of(members)[i] == members_of(members.drop_last())[i]);
            }
        }
    }
}

impl DeepView for JsonValue {
    type V = Json;

    open spec fn deep_view(&self) -> Json {
        self@
    }
}

/// The member of an object under a key.  Where several members carry the
/// key, the last one counts.
pub open spec fn member_under(members: Seq<(Seq<char>, Json)>, key: Seq<char>) -> Option<Json>
    decreases members.len(),
{
    if members.len() == 0 {
        None
    } else if members.last().0 == key {
        Some(members.last().1)
    } else {
        member_under(members.drop_last(), key)
    }
}

/// The member of an object under a key; `None` for a missing key and for a
/// document that is no object.
pub open spec fn json_member(json: Json, key: Seq<char>) -> Option<Json> {
    match json {
        Json::Object(members) => member_under(members, key),
        _ => None,
    }
}

/// The number that a document is, if it is one.
pub open spec fn json_number(json: Json) -> Option<JsonNumber> {
    match json {
        Json::Number(n) => Some(n),
        _ => None,
    }
}

/// The non-negative integer that a document is, if it is one.
pub open spec fn json_u64(json: Json) -> Option<u64> {
    match json {
        Json::Number(n) => number_u64(n),
        _ => None,
    }
}

/// The integer that a document is, if it is one that fits 32 bits unsigned.
pub open spec fn json_u32(json: Json) -> Option<u32> {
    match json {
        Json::Number(n) => number_u32(n),
        _ => None,
    }
}

/// The integer that a document is, if it is one that fits 8 bits unsigned.
pub open spec fn json_u8(json: Json) -> Option<u8> {
    match json {
        Json::Number(n) => number_u8(n),
        _ => None,
    }
}

/// The boolean that a document is, if it is one.
pub open spec fn json_bool(json: Json) -> Option<bool> {
    match json {
        Json::Bool(b) => Some(b),
        _ => None,
    }
}

/// The text that a document is, if it is a string.
pub open spec fn json_text(json: Json) -> Option<Seq<char>> {
    match json {
        Json::Text(s) => Some(s),
        _ => None,
    }
}

/// The text that a document is; `Some(None)` for `null`, and `None` for a
/// document that is neither.
pub open spec fn json_optional_text(json: Json) -> Option<Option<Seq<char>>> {
    match json {
        Json::Null => Some(None),
        Json::Text(s) => Some(Some(s)),
        _ => None,
    }
}

/// The items of a document, if it is an array.
pub open spec fn json_items(json: Json) -> Option<Seq<Json>> {
    match json {
        Json::Array(items) => Some(items),
        _ => None,
    }
}

/// One field of a record.  A record is written as an object keyed by the
/// fields' names, or as an array that holds exactly the record's `arity`
/// fields in their order.
pub open spec fn json_field(json: Json, arity: nat, index: nat, name: Seq<char>) -> Option<Json> {
    match json {
        Json::Object(_) => json_member(json, name),
        Json::Array(items) => if items.len() == arity && index < arity {
            Some(items[index as int])
        } else {
            None
        },
        _ => None,
    }
}

impl JsonValue {
    /// The member of an object under a key.
    pub fn member(&self, key: &str) -> (member: Option<&JsonValue>)
        ensures
            member.deep_view() == json_member(self@, key@),
    {
        match self {
            JsonValue::Object(members) => {
                let mut i: usize = members.len();
                let ghost all = members_of(members@);
                proof {
                    lemma_members_of(members@);
                    assert(all.take(members.len() as int) =~= all);
                }
                while i > 0
                    invariant
                        i <= members.len(),
                        all == members_of(members@),
                        self@ == Json::Object(all),
                        member_under(all, key@) == member_under(all.take(i as int), key@),
                    decreases i,
                {
                    proof {
                        lemma_members_of(members@);
                        assert(all.take(i as int).drop_last() =~= all.take(i - 1));
                        assert(all.take(i as int).last() == (
                            members@[i - 1].0@,
                            members@[i - 1].1@,
                        ));
                    }
                    if same_text(members[i - 1].0.as_str(), key) {
                        return Some(&members[i - 1].1);
                    }
                    i = i - 1;
                }
                None
            },
            _ => None,
        }
    }

    /// The number that the document is, if it is one.
    pub fn number(&self) -> (number: Option<JsonNumber>)
        ensures
            number == json_number(self@),
    {
        match self {
            JsonValue::Number(n) => Some(*n),
            _ => None,
        }
    }

    /// The non-negative integer that the document is, if it is one.
    pub fn as_u64(&self) -> (n: Option<u64>)
        ensures
            n == json_u64(self@),
    {
        match self {
            JsonValue::Number(number) => number.as_u64(),
            _ => None,
        }
    }

    /// The integer that the document is, if it is one that fits 32 bits
    /// unsigned.
    pub fn as_u32(&self) -> (n: Option<u32>)
        ensures
            n == json_u32(self@),
    {
        match self {
            JsonValue::Number(number) => number.as_u32(),
            _ => None,
        }
    }

    /// The integer that the document is, if it is one that fits 8 bits
    /// unsigned.
    pub fn as_u8(&self) -> (n: Option<u8>)
        ensures
            n == json_u8(self@),
    {
        match self {
            JsonValue::Number(number) => number.as_u8(),
            _ => None,
        }
    }

    /// The boolean that the document is, if it is one.
    pub fn as_bool(&self) -> (b: Option<bool>)
        ensures
            b == json_bool(self@),
    {
        match self {
            JsonValue::Bool(b) => Some(*b),
            _ => None,
        }
    }

    /// The text that the document is, if it is a string.
    pub fn text(&self) -> (text: Option<String>)
        ensures
            text.deep_view() == json_text(self@),
    {
        match self {
            JsonValue::Text(s) => Some(s.clone()),
            _ => None,
        }
    }

    /// The text that the document is; `Some(None)` for `null`, and `None`
    /// for a document that is neither.
    pub fn optional_text(&self) -> (text: Option<Option<String>>)
        ensures
            text.deep_view() == json_optional_text(self@),
    {
        match self {
            JsonValue::Null => Some(None),
            JsonValue::Text(s) => Some(Some(s.clone())),
            _ => None,
        }
    }

    /// The items of the document, if it is an array.
    pub fn items(&self) -> (items: Option<&Vec<JsonValue>>)
        ensures
            items.deep_view() == json_items(self@),
    {
        match self {
            JsonValue::Array(items) => {
                proof {
                    lemma_documents_of(items@);
                    assert(items.deep_view() =~= documents_of(items@));
                }
                Some(items)
            },
            _ => None,
        }
    }

    /// One field of a record, by its place in the record and by its name.
    pub fn field(&self, arity: usize, index: usize, name: &str) -> (field: Option<&JsonValue>)
        ensures
            field.deep_view() == json_field(self@, arity as nat, index as nat, name@),
    {
        match self {
            JsonValue::Object(_) => self.member(name),
            JsonValue::Array(items) => {
                proof {
                    lemma_documents_of(items@);
                }
                if items.len() == arity && index < arity {
                    Some(&items[index])
                } else {
                    None
                }
            },
            _ => None,
        }
    }
}

/// `serde_json::Value`, the parser's own tree.  Nothing is known of a value
/// but what the functions below say of it.
#[verifier::external_type_specification]
#[verifier::external_body]
pub struct ExValue(serde_json::Value);

/// The document that `serde_json::from_str` reads from a text, or `None`
/// where it rejects the text.
pub uninterp spec fn json_document(text: Seq<char>) -> Option<Json>;

/// The document that a `serde_json::Value` holds; the members of an object
/// stand in the order in which its map hands them out.
pub uninterp spec fn json_of(value: serde_json::Value) -> Json;

/// The outermost layer of a `serde_json::Value`, with its scalar content or
/// a borrow of what it holds.
pub enum JsonNode<'a> {
    Null,
    Bool(bool),
    Number,
    Text(&'a str),
    Array(&'a Vec<serde_json::Value>),
    Object,
}

/// The documents that a sequence of values holds, item by item.
pub open spec fn jsons_of(values: Seq<serde_json::Value>) -> Seq<Json> {
    Seq::new(values.len(), |i: int| json_of(values[i]))
}

/// The members that a sequence of borrowed keys and values holds, one by
/// one.
pub open spec fn borrowed_members_of(members: Seq<(&String, &serde_json::Value)>) -> Seq<
    (Seq<char>, Json),
> {
    Seq::new(members.len(), |i: int| (members[i].0@, json_of(*members[i].1)))
}

/// Whether `node` is the outermost layer of the document `json`.
pub open spec fn node_describes(node: JsonNode<'_>, json: Json) -> bool {
    match node {
        JsonNode::Null => json is Null,
        JsonNode::Bool(b) => json == Json::Bool(b),
        JsonNode::Number => json is Number,
        JsonNode::Text(s) => json == Json::Text(s@),
        JsonNode::Array(items) => json == Json::Array(jsons_of(items@)),
        JsonNode::Object => json is Object,
    }
}

/// Parses a text with `serde_json::from_str` into a `Value`.  The result is
/// the document named [`json_document`]: `None` exactly where the parser
/// rejects the text.
#[verifier::external_body]
pub(crate) fn parse_json(text: &str) -> (parsed: Option<serde_json::Value>)
    ensures
        parsed is Some <==> json_document(text@) is Some,
        parsed matches Some(value) ==> json_document(text@) == Some(json_of(value)),
{
    serde_json::from_str::<serde_json::Value>(text).ok()
}

/// Tells the variants of `serde_json::Value` apart.  A boolean and a string
/// come with their content, an array with a borrow of its items.
#[verifier::external_body]
pub(crate) fn json_node(value: &serde_json::Value) -> (node: JsonNode<'_>)
    ensures
        node_describes(node, json_of(*value)),
{
    match value {
        serde_json::Value::Null => JsonNode::Null,
        serde_json::Value::Bool(b) => JsonNode::Bool(*b),
        serde_json::Value::Number(_) => JsonNode::Number,
        serde_json::Value::String(s) => JsonNode::Text(s.as_str()),
        serde_json::Value::Array(items) => JsonNode::Array(items),
        serde_json::Value::Object(_) => JsonNode::Object,
    }
}

/// Reads a number through `Number::as_u64`, `as_i64` and `as_f64`: an integer
/// that is not negative is `PosInt`, a negative one `NegInt`, and any other
/// number `Float` with the bits of its `f64`.  `None` exactly where the value
/// is no number.
#[verifier::external_body]
pub(crate) fn number_of(value: &serde_json::Value) -> (number: Option<JsonNumber>)
    ensures
        number == json_number(json_of(*value)),
{
    let n = value.as_number()?;
    match (n.as_u64(), n.as_i64(), n.as_f64()) {
        (Some(u), _, _) => Some(JsonNumber::PosInt(u)),
        (None, Some(i), _) => Some(JsonNumber::NegInt(i)),
        (None, None, Some(x)) => Some(JsonNumber::Float(x.to_bits())),
        (None, None, None) => None,
    }
}

/// Hands out the members of an object with `Value::as_object` and
/// `Map::iter`, each as a borrow of its key and of its value, in the map's
/// order.  `None` exactly where the value is no object.
#[verifier::external_body]
pub(crate) fn members_in(value: &serde_json::Value) -> (members: Option<
    Vec<(&String, &serde_json::Value)>,
>)
    ensures
        members is Some <==> json_of(*value) is Object,
        members matches Some(m) ==> json_of(*value) == Json::Object(borrowed_members_of(m@)),
{
    value.as_object().map(|map| map.iter().collect())
}

/// Copies what a `serde_json::Value` holds into a document of this crate.
fn lift(value: &serde_json::Value) -> (lifted: JsonValue)
    ensures
        lifted@ == json_of(*value),
    decreases json_of(*value),
{
    match json_node(value) {
        JsonNode::Null => JsonValue::Null,
        JsonNode::Bool(b) => JsonValue::Bool(b),
        JsonNode::Number => match number_of(value) {
            Some(n) => JsonValue::Number(n),
            None => JsonValue::Null,
        },
        JsonNode::Text(s) => JsonValue::Text(s.to_owned()),
        JsonNode::Array(items) => {
            let mut out: Vec<JsonValue> = Vec::new();
            let mut i: usize = 0;
            while i < items.len()
                invariant
                    i <= items.len(),
                    json_of(*value) == Json::Array(jsons_of(items@)),
                    out.len() == i,
                    forall|k: int| 0 <= k < i ==> (#[trigger] out[k])@ == json_of(items[k]),
                decreases items.len() - i,
            {
                proof {
                    let all = jsons_of(items@);
                    assert(all[i as int] == json_of(items[i as int]));
                    let json = json_of(*value);
                    assert(decreases_to!(json => json->Array_0));
                    assert(decreases_to!(json->Array_0 => json->Array_0[i as int]));
                }
                let item = lift(&items[i]);
                out.push(item);
                i = i + 1;
            }
            proof {
                lemma_documents_of(out@);
                assert(documents_of(out@) =~= jsons_of(items@));
            }
            JsonValue::Array(out)
        },
        JsonNode::Object => {
            let members = match members_in(value) {
                Some(members) => members,
                None => {
                    return JsonValue::Null;
                },
            };
            let mut out: Vec<(String, JsonValue)> = Vec::new();
            let mut i: usize = 0;
            while i < members.len()
                invariant
                    i <= members.len(),
                    json_of(*value) == Json::Object(borrowed_members_of(members@)),
                    out.len() == i,
                    forall|k: int|
                        0 <= k < i ==> (#[trigger] out[k]).0@ == members[k].0@ && out[k].1@
                            == json_of(*members[k].1),
                decreases members.len() - i,
            {
                proof {
                    let all = borrowed_members_of(members@);
                    assert(all[i as int] == (members[i as int].0@, json_of(*members[i as int].1)));
                    let json = json_of(*value);
                    assert(decreases_to!(json => json->Object_0));
                    assert(decreases_to!(json->Object_0 => json->Object_0[i as int]));
                    assert(decreases_to!(json->Object_0[i as int] => json->Object_0[i as int].1));
                }
                let key = members[i].0.clone();
                let item = lift(members[i].1);
                out.push((key, item));
                i = i + 1;
            }
            proof {
                lemma_members_of(out@);
                assert(members_of(out@) =~= borrowed_members_of(members@));
            }
            JsonValue::Object(out)
        },
    }
}

/// Parses a text into a document; `None` where the text is no JSON.
pub fn parse_document(text: &str) -> (document: Option<JsonValue>)
    ensures
        document.deep_view() == json_document(text@),
{
    match parse_json(text) {
        Some(value) => Some(lift(&value)),
        None => None,
    }
}

} // verus!

