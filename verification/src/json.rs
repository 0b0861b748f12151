//! JSON documents as values of the library.

use crate::text::{decimal, same_text};
use vstd::prelude::*;

verus! {

/// One member of a JSON object.
#[derive(Debug, PartialEq)]
pub struct Member {
    pub key: String,
    pub value: Json,
}

/// A JSON document. Where an object names a key more than once, the last
/// member with that key is the one that counts.
#[derive(Debug, PartialEq)]
pub enum Json {
    Null,
    Bool(bool),
    Number(serde_json::Number),
    Text(String),
    Array(Vec<Json>),
    Object(Vec<Member>),
}

/// The mathematical value of a JSON document. A number is the text that
/// stands for it.
pub enum JsonValue {
    Null,
    Bool(bool),
    Number(Seq<char>),
    Text(Seq<char>),
    Array(Seq<JsonValue>),
    Object(Map<Seq<char>, JsonValue>),
}

/// The text that `serde_json` writes for a number.
pub uninterp spec fn number_text(n: serde_json::Number) -> Seq<char>;

/// The value of a document.
pub open spec fn value_of(doc: Json) -> JsonValue
    decreases doc,
{
    match doc {
        Json::Null => JsonValue::Null,
        Json::Bool(b) => JsonValue::Bool(b),
        Json::Number(n) => JsonValue::Number(number_text(n)),
        Json::Text(t) => JsonValue::Text(t@),
        Json::Array(items) => JsonValue::Array(
            Seq::new(
                items@.len(),
                |i: int|
                    if 0 <= i < items@.len() {
                        value_of(items@[i])
                    } else {
                        JsonValue::Null
                    },
            ),
        ),
        Json::Object(members) => JsonValue::Object(members_of(members@)),
    }
}

/// The members of an object as a map: a later member replaces an earlier one
/// with the same key.
pub open spec fn members_of(members: Seq<Member>) -> Map<Seq<char>, JsonValue>
    decreases members,
{
    if members.len() == 0 {
        Map::empty()
    } else {
        members_of(members.drop_last()).insert(
            members.last().key@,
            value_of(members.last().value),
        )
    }
}

impl View for Json {
    type V = JsonValue;

    open spec fn view(&self) -> JsonValue {
        value_of(*self)
    }
}

/// `serde_json::Number`, kept as it is inside a document.
#[verifier::external_type_specification]
#[verifier::external_body]
pub struct ExNumber(serde_json::Number);

/// `serde_json::Value`, which a document passes through when it is read or
/// written.
#[verifier::external_type_specification]
#[verifier::external_body]
pub struct ExValue(serde_json::Value);

/// `serde_json::Error`, what reading fails with.
#[verifier::external_type_specification]
#[verifier::external_body]
pub struct ExError(serde_json::Error);

/// The document that a `serde_json::Value` holds.
pub uninterp spec fn document_of(value: serde_json::Value) -> JsonValue;

/// What `serde_json` reads from a text: the document, or nothing where the
/// text is not one JSON document.
pub uninterp spec fn parsed(bytes: Seq<u8>) -> Option<JsonValue>;

/// What `serde_json` says of bytes that are not one JSON document: the
/// message of the error that reading them fails with.
pub uninterp spec fn refusal(bytes: Seq<u8>) -> Seq<char>;

/// The message that a `serde_json::Error` shows.
pub uninterp spec fn error_message(error: serde_json::Error) -> Seq<char>;

/// What `serde_json` writes for a document, in its compact form. The members
/// of an object are written in the order of their keys, which is how
/// `serde_json` keeps them unless its feature `preserve_order` is switched
/// on; this library is built without that feature.
pub uninterp spec fn rendered(doc: JsonValue) -> Seq<char>;

/// `serde_json::from_slice`, read as a `serde_json::Value`. The outcome, the
/// value or the error with its message, is a function of the bytes alone.
#[verifier::external_body]
fn read_value(bytes: &[u8]) -> (value: Result<serde_json::Value, serde_json::Error>)
    ensures
        match value {
            Ok(v) => parsed(bytes@) == Some(document_of(v)),
            Err(e) => parsed(bytes@).is_none() && error_message(e) == refusal(bytes@),
        },
{
    serde_json::from_slice::<serde_json::Value>(bytes)
}

/// `serde_json::Error`'s `to_string`: the message of the error.
#[verifier::external_body]
fn error_text(error: &serde_json::Error) -> (message: String)
    ensures
        message@ == error_message(*error),
{
    error.to_string()
}

/// Moves a `serde_json::Value` into a `Json`, variant by variant. The members
/// of an object come in the order in which its map hands them out.
#[verifier::external_body]
fn json_of_value(value: serde_json::Value) -> (doc: Json)
    ensures
        doc@ == document_of(value),
{
    match value {
        serde_json::Value::Null => Json::Null,
        serde_json::Value::Bool(b) => Json::Bool(b),
        serde_json::Value::Number(n) => Json::Number(n),
        serde_json::Value::String(s) => Json::Text(s),
        serde_json::Value::Array(a) => Json::Array(a.into_iter().map(json_of_value).collect()),
        serde_json::Value::Object(m) => Json::Object(
            m.into_iter().map(|(key, v)| Member { key, value: json_of_value(v) }).collect(),
        ),
    }
}

/// Builds the `serde_json::Value` that holds a document, variant by variant.
/// The members of an object are put into its map one after the other with
/// `serde_json::Map::insert`, which replaces the value that an equal key had;
/// so a later member replaces an earlier one with the same key.
#[verifier::external_body]
fn value_of_json(doc: &Json) -> (value: serde_json::Value)
    ensures
        document_of(value) == doc@,
{
    match doc {
        Json::Null => serde_json::Value::Null,
        Json::Bool(b) => serde_json::Value::Bool(*b),
        Json::Number(n) => serde_json::Value::Number(n.clone()),
        Json::Text(t) => serde_json::Value::String(t.clone()),
        Json::Array(items) => serde_json::Value::Array(items.iter().map(value_of_json).collect()),
        Json::Object(members) => {
            let mut map = serde_json::Map::new();
            for m in members {
                map.insert(m.key.clone(), value_of_json(&m.value));
            }
            serde_json::Value::Object(map)
        },
    }
}

/// `serde_json::Value`'s `to_string`: the compact JSON text of the value.
#[verifier::external_body]
fn write_value(value: &serde_json::Value) -> (text: String)
    ensures
        text@ == rendered(document_of(*value)),
{
    value.to_string()
}

/// The unsigned integer that the text of a number stands for, as
/// `serde_json::Number::as_u64` reads it: `None` for a negative number, a
/// fraction or a number beyond sixty-four bits.
pub uninterp spec fn integer_of(text: Seq<char>) -> Option<u64>;

/// `serde_json::Number::as_u64`.
#[verifier::external_body]
fn number_as_u64(n: &serde_json::Number) -> (r: Option<u64>)
    ensures
        r == integer_of(number_text(*n)),
{
    n.as_u64()
}

/// `serde_json::Number::from` on a `u32`: the number that stands for `v`. It
/// is written as the decimal digits of `v`.
#[verifier::external_body]
fn number_from_u32(v: u32) -> (n: serde_json::Number)
    ensures
        number_text(n) == decimal(v as nat),
        integer_of(number_text(n)) == Some(v as u64),
{
    serde_json::Number::from(v)
}

/// `serde_json::Number`'s `clone`: a number that is written the same way.
pub assume_specification[ <serde_json::Number as Clone>::clone ](n: &serde_json::Number) -> (r:
    serde_json::Number)
    ensures
        number_text(r) == number_text(*n),
;

impl JsonValue {
    /// The member of an object under `key`, if this is an object that has one.
    pub open spec fn field(self, key: Seq<char>) -> Option<JsonValue> {
        match self {
            JsonValue::Object(members) => if members.dom().contains(key) {
                Some(members[key])
            } else {
                None
            },
            _ => None,
        }
    }

    /// The characters of a string, if this is a string.
    pub open spec fn text(self) -> Option<Seq<char>> {
        match self {
            JsonValue::Text(t) => Some(t),
            _ => None,
        }
    }

    /// The truth value, if this is `true` or `false`.
    pub open spec fn boolean(self) -> Option<bool> {
        match self {
            JsonValue::Bool(b) => Some(b),
            _ => None,
        }
    }

    /// The unsigned integer, if this is a number that stands for one.
    pub open spec fn integer(self) -> Option<u64> {
        match self {
            JsonValue::Number(t) => integer_of(t),
            _ => None,
        }
    }

    /// The elements of an array, if this is an array.
    pub open spec fn items(self) -> Option<Seq<JsonValue>> {
        match self {
            JsonValue::Array(items) => Some(items),
            _ => None,
        }
    }

    /// The element of an array at `index`, if this is an array that has one.
    pub open spec fn item(self, index: int) -> Option<JsonValue> {
        match self {
            JsonValue::Array(items) => if 0 <= index < items.len() {
                Some(items[index])
            } else {
                None
            },
            _ => None,
        }
    }
}

/// The values of a sequence of documents.
pub open spec fn values_of(docs: Seq<Json>) -> Seq<JsonValue> {
    Seq::new(docs.len(), |i: int| value_of(docs[i]))
}

/// The value of an array is the sequence of the values of its elements.
pub proof fn lemma_array_value(items: Vec<Json>)
    ensures
        value_of(Json::Array(items)) == JsonValue::Array(values_of(items@)),
{
    assert(value_of(Json::Array(items))->Array_0 =~= values_of(items@));
}

/// The last member with a key is the one that the object holds under it.
pub proof fn lemma_member_found(members: Seq<Member>, key: Seq<char>, at: int)
    requires
        0 <= at < members.len(),
        members[at].key@ == key,
        forall|j: int| at < j < members.len() ==> members[j].key@ != key,
    ensures
        members_of(members).dom().contains(key),
        members_of(members)[key] == value_of(members[at].value),
    decreases members.len(),
{
    if at < members.len() - 1 {
        lemma_member_found(members.drop_last(), key, at);
    }
}

/// A key that no member has is not a key of the object.
pub proof fn lemma_member_absent(members: Seq<Member>, key: Seq<char>)
    requires
        forall|j: int| 0 <= j < members.len() ==> members[j].key@ != key,
    ensures
        !members_of(members).dom().contains(key),
    decreases members.len(),
{
    if members.len() > 0 {
        lemma_member_absent(members.drop_last(), key);
    }
}

/// Members with the same keys and values, in the same order, make the same
/// object.
pub proof fn lemma_members_same(a: Seq<Member>, b: Seq<Member>)
    requires
        a.len() == b.len(),
        forall|j: int|
            0 <= j < a.len() ==> a[j].key@ == b[j].key@ && value_of(a[j].value) == value_of(
                b[j].value,
            ),
    ensures
        members_of(a) == members_of(b),
    decreases a.len(),
{
    if a.len() > 0 {
        lemma_members_same(a.drop_last(), b.drop_last());
    }
}

/// Where every member with a key gets a new value and all else stays, the
/// object holds the new value under that key if it had the key, and is
/// unchanged if it had not.
pub proof fn lemma_members_replaced(
    a: Seq<Member>,
    b: Seq<Member>,
    key: Seq<char>,
    value: JsonValue,
)
    requires
        a.len() == b.len(),
        forall|j: int| 0 <= j < a.len() ==> b[j].key@ == a[j].key@,
        forall|j: int| 0 <= j < a.len() && a[j].key@ == key ==> value_of(b[j].value) == value,
        forall|j: int|
            0 <= j < a.len() && a[j].key@ != key ==> value_of(b[j].value) == value_of(a[j].value),
    ensures
        members_of(b) == if members_of(a).dom().contains(key) {
            members_of(a).insert(key, value)
        } else {
            members_of(a)
        },
    decreases a.len(),
{
    if a.len() > 0 {
        lemma_members_replaced(a.drop_last(), b.drop_last(), key, value);
        let before = members_of(a.drop_last());
        if a.last().key@ == key {
            assert(members_of(b) =~= members_of(a).insert(key, value));
        } else if before.dom().contains(key) {
            assert(members_of(b) =~= members_of(a).insert(key, value));
        } else {
            assert(members_of(b) =~= members_of(a));
        }
    }
}

impl Json {
    /// A JSON string with the characters of `s`.
    pub fn text(s: &str) -> (doc: Json)
        ensures
            doc@ == JsonValue::Text(s@),
    {
        Json::Text(s.to_owned())
    }

    /// The member under `key`, where this document is an object that has one.
    pub fn get(&self, key: &str) -> (found: Option<&Json>)
        ensures
            match found {
                Some(v) => self@.field(key@) == Some(v@),
                None => self@.field(key@).is_none(),
            },
    {
        match self {
            Json::Object(members) => {
                let mut i: usize = members.len();
                while i > 0
                    invariant
                        i <= members.len(),
                        self == Json::Object(*members),
                        forall|j: int| i <= j < members.len() ==> members@[j].key@ != key@,
                    decreases i,
                {
                    i -= 1;
                    if same_text(members[i].key.as_str(), key) {
                        proof {
                            lemma_member_found(members@, key@, i as int);
                        }
                        return Some(&members[i].value);
                    }
                }
                proof {
                    lemma_member_absent(members@, key@);
                }
                None
            },
            _ => None,
        }
    }

    /// The string that this document is, if it is one.
    pub fn as_text(&self) -> (found: Option<&str>)
        ensures
            match found {
                Some(t) => self@.text() == Some(t@),
                None => self@.text().is_none(),
            },
    {
        match self {
            Json::Text(t) => Some(t.as_str()),
            _ => None,
        }
    }

    /// The truth value that this document is, if it is one.
    pub fn as_bool(&self) -> (found: Option<bool>)
        ensures
            found == self@.boolean(),
    {
        match self {
            Json::Bool(b) => Some(*b),
            _ => None,
        }
    }

    /// The unsigned integer that this document is, if it is one.
    pub fn as_u64(&self) -> (found: Option<u64>)
        ensures
            found == self@.integer(),
    {
        match self {
            Json::Number(n) => number_as_u64(n),
            _ => None,
        }
    }

    /// The number that stands for `v`.
    pub fn from_u32(v: u32) -> (doc: Json)
        ensures
            doc@ == JsonValue::Number(decimal(v as nat)),
            doc@.integer() == Some(v as u64),
    {
        Json::Number(number_from_u32(v))
    }

    /// The element at `index`, where this document is an array that has one.
    pub fn item(&self, index: usize) -> (found: Option<&Json>)
        ensures
            match found {
                Some(v) => self@.item(index as int) == Some(v@),
                None => self@.item(index as int).is_none(),
            },
    {
        match self {
            Json::Array(items) => {
                if index < items.len() {
                    Some(&items[index])
                } else {
                    None
                }
            },
            _ => None,
        }
    }

    /// The elements of this document, if it is an array.
    pub fn as_array(&self) -> (found: Option<&Vec<Json>>)
        ensures
            match found {
                Some(items) => self@.items() == Some(values_of(items@)),
                None => self@.items().is_none(),
            },
    {
        match self {
            Json::Array(items) => {
                Some(items)
            },
            _ => None,
        }
    }

    /// A copy of this document.
    pub fn duplicate(&self) -> (copy: Json)
        ensures
            copy@ == self@,
        decreases self,
    {
        match self {
            Json::Null => Json::Null,
            Json::Bool(b) => Json::Bool(*b),
            Json::Number(n) => Json::Number(n.clone()),
            Json::Text(t) => Json::Text(t.clone()),
            Json::Array(items) => {
                let mut out: Vec<Json> = Vec::new();
                let mut i: usize = 0;
                while i < items.len()
                    invariant
                        decreases_to!(self => items),
                        i <= items.len(),
                        out.len() == i,
                        forall|j: int| 0 <= j < i ==> value_of(out@[j]) == value_of(items@[j]),
                        self == Json::Array(*items),
                    decreases items.len() - i,
                {
                    out.push(items[i].duplicate());
                    i += 1;
                }
                proof {
                    lemma_array_value(*items);
                    lemma_array_value(out);
                    assert(values_of(out@) =~= values_of(items@));
                }
                Json::Array(out)
            },
            Json::Object(members) => {
                let mut out: Vec<Member> = Vec::new();
                let mut i: usize = 0;
                while i < members.len()
                    invariant
                        decreases_to!(self => members),
                        i <= members.len(),
                        out.len() == i,
                        forall|j: int|
                            0 <= j < i ==> out@[j].key@ == members@[j].key@ && value_of(
                                out@[j].value,
                            ) == value_of(members@[j].value),
                        self == Json::Object(*members),
                    decreases members.len() - i,
                {
                    let value = members[i].value.duplicate();
                    out.push(Member { key: members[i].key.clone(), value });
                    i += 1;
                }
                proof {
                    lemma_members_same(out@, members@);
                }
                Json::Object(out)
            },
        }
    }
}

/// Pushing a document adds its value to the values of the documents.
pub proof fn lemma_values_push(docs: Seq<Json>, doc: Json)
    ensures
        values_of(docs.push(doc)) == values_of(docs).push(doc@),
{
}

/// Pushing a member puts its value under its key.
pub proof fn lemma_members_push(members: Seq<Member>, member: Member)
    ensures
        members_of(members.push(member)) == members_of(members).insert(
            member.key@,
            member.value@,
        ),
{
    assert(members.push(member).drop_last() == members);
}

/// Builds a JSON object member by member.
pub struct ObjectBuilder {
    members: Vec<Member>,
}

impl ObjectBuilder {
    /// The members put so far.
    pub closed spec fn fields(&self) -> Map<Seq<char>, JsonValue> {
        members_of(self.members@)
    }

    /// A builder without members.
    pub fn new() -> (builder: ObjectBuilder)
        ensures
            builder.fields() == Map::<Seq<char>, JsonValue>::empty(),
    {
        ObjectBuilder { members: Vec::new() }
    }

    /// Puts `value` under `key`, in place of what was there.
    pub fn put(&mut self, key: &str, value: Json)
        ensures
            final(self).fields() == old(self).fields().insert(key@, value@),
    {
        let member = Member { key: key.to_owned(), value };
        proof {
            lemma_members_push(self.members@, member);
        }
        self.members.push(member);
    }

    /// The object with the members put.
    pub fn build(self) -> (doc: Json)
        ensures
            doc@ == JsonValue::Object(self.fields()),
    {
        Json::Object(self.members)
    }
}

/// The array of the given documents.
pub fn array(items: Vec<Json>) -> (doc: Json)
    ensures
        doc@ == JsonValue::Array(values_of(items@)),
{
    proof {
        lemma_array_value(items);
    }
    Json::Array(items)
}

/// Reads one JSON document from `bytes`: the document that `serde_json` finds
/// there, or what it says of bytes that are not one JSON document.
pub fn parse_or_refuse(bytes: &[u8]) -> (r: Result<Json, String>)
    ensures
        match r {
            Ok(doc) => parsed(bytes@) == Some(doc@),
            Err(message) => parsed(bytes@).is_none() && message@ == refusal(bytes@),
        },
{
    match read_value(bytes) {
        Ok(value) => Ok(json_of_value(value)),
        Err(error) => Err(error_text(&error)),
    }
}

/// Reads one JSON document from `bytes`: the document that `serde_json` finds
/// there, or `None` where the bytes are not one JSON document.
pub fn parse(bytes: &[u8]) -> (doc: Option<Json>)
    ensures
        match doc {
            Some(d) => parsed(bytes@) == Some(d@),
            None => parsed(bytes@).is_none(),
        },
{
    match read_value(bytes) {
        Ok(value) => Some(json_of_value(value)),
        Err(_) => None,
    }
}

/// Writes a document as compact JSON text.
pub fn render(doc: &Json) -> (text: String)
    ensures
        text@ == rendered(doc@),
{
    let value = value_of_json(doc);
    write_value(&value)
}

} // verus!
