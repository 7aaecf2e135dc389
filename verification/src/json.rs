//! JSON documents.
//!
//! [`Json`] holds a document as a tree of plain values. Reading a document
//! out of its text is left to `serde_json`, behind [`parse`]; what is then
//! done with the tree is this crate's own.

use crate::text::same_text;
use vstd::prelude::*;

verus! {

/// A JSON document.
#[derive(Debug, PartialEq, Eq)]
pub enum Json {
    Null,
    Bool(bool),
    /// A number. It holds the value where that is a whole number from 0 to
    /// `u64::MAX`, and `None` for every other number: a negative one, one
    /// with a fraction or an exponent, one too large.
    Number(Option<u64>),
    Text(String),
    Array(Vec<Json>),
    /// An object: its members in the order in which they are held.
    Object(Vec<Member>),
}

/// One member of a JSON object.
#[derive(Debug, PartialEq, Eq)]
pub struct Member {
    pub key: String,
    pub value: Json,
}

/// A JSON document as a mathematical value.
pub enum JsonView {
    Null,
    Bool(bool),
    Number(Option<u64>),
    Text(Seq<char>),
    Array(Seq<JsonView>),
    Object(Seq<(Seq<char>, JsonView)>),
}

/// What a document holds, level by level: an array is viewed as the views
/// of its items, an object as its keys paired with the views of its values.
pub open spec fn view_of(json: Json) -> JsonView
    decreases json,
{
    match json {
        Json::Null => JsonView::Null,
        Json::Bool(flag) => JsonView::Bool(flag),
        Json::Number(number) => JsonView::Number(number),
        Json::Text(text) => JsonView::Text(text@),
        Json::Array(items) => JsonView::Array(
            Seq::new(
                items.len() as nat,
                |i: int|
                    if 0 <= i < items.len() {
                        view_of(items[i])
                    } else {
                        JsonView::Null
                    },
            ),
        ),
        Json::Object(members) => JsonView::Object(
            Seq::new(
                members.len() as nat,
                |i: int|
                    if 0 <= i < members.len() {
                        (members[i].key@, view_of(members[i].value))
                    } else {
                        (Seq::empty(), JsonView::Null)
                    },
            ),
        ),
    }
}

impl View for Json {
    type V = JsonView;

    open spec fn view(&self) -> JsonView {
        view_of(*self)
    }
}

/// The value of the first member of `members` whose key is `key`, if there
/// is one.
pub open spec fn member_of(members: Seq<(Seq<char>, JsonView)>, key: Seq<char>) -> Option<
    JsonView,
>
    decreases members.len(),
{
    if members.len() == 0 {
        None
    } else if members[0].0 == key {
        Some(members[0].1)
    } else {
        member_of(members.drop_first(), key)
    }
}

/// A key that no member carries is not found.
pub proof fn lemma_member_of_absent(members: Seq<(Seq<char>, JsonView)>, key: Seq<char>)
    requires
        forall|i: int| 0 <= i < members.len() ==> members[i].0 != key,
    ensures
        member_of(members, key) is None,
    decreases members.len(),
{
    if members.len() > 0 {
        lemma_member_of_absent(members.drop_first(), key);
    }
}

/// The first member that carries a key is the one that is found.
pub proof fn lemma_member_of_first(members: Seq<(Seq<char>, JsonView)>, key: Seq<char>, at: int)
    requires
        0 <= at < members.len(),
        members[at].0 == key,
        forall|i: int| 0 <= i < at ==> members[i].0 != key,
    ensures
        member_of(members, key) == Some(members[at].1),
    decreases members.len(),
{
    if at > 0 {
        lemma_member_of_first(members.drop_first(), key, at - 1);
    }
}

impl Json {
    /// The member `key` of an object: the value of the first member that
    /// carries the key. `None` where no member does, and where the document
    /// is no object.
    pub fn get(&self, key: &str) -> (found: Option<&Json>)
        ensures
            match self@ {
                JsonView::Object(members) => match member_of(members, key@) {
                    Some(value) => found is Some && found.unwrap()@ == value,
                    None => found is None,
                },
                _ => found is None,
            },
    {
        match self {
            Json::Object(members) => {
                let mut i: usize = 0;
                while i < members.len()
                    invariant
                        i <= members.len(),
                        self@ is Object,
                        self@->Object_0.len() == members.len(),
                        forall|k: int|
                            0 <= k < members.len() ==> self@->Object_0[k] == (
                                members[k].key@,
                                members[k].value@,
                            ),
                        forall|k: int| 0 <= k < i ==> members[k].key@ != key@,
                    decreases members.len() - i,
                {
                    if same_text(members[i].key.as_str(), key) {
                        proof {
                            lemma_member_of_first(self@->Object_0, key@, i as int);
                        }
                        return Some(&members[i].value);
                    }
                    i = i + 1;
                }
                proof {
                    lemma_member_of_absent(self@->Object_0, key@);
                }
                None
            },
            _ => None,
        }
    }
}

/// Makes `serde_json::Value` known to the verifier, as a type whose inside
/// it does not see.
#[verifier::external_type_specification]
#[verifier::external_body]
pub struct ExValue(serde_json::Value);

/// Makes `serde_json::Error` known to the verifier, as a type whose inside
/// it does not see.
#[verifier::external_type_specification]
#[verifier::external_body]
pub struct ExError(serde_json::Error);

/// The document that `serde_json::from_slice` reads out of a text, and
/// `None` where it reads none and fails.
pub uninterp spec fn text_value(text: Seq<u8>) -> Option<JsonView>;

/// The document that a `serde_json::Value` holds.
pub uninterp spec fn value_view(value: serde_json::Value) -> JsonView;

/// Calls `serde_json::from_slice` for a `serde_json::Value`.
///
/// Trusted: what the call reads out of a text, and whether it reads
/// anything, depends on the bytes of the text alone. Nothing is claimed
/// about which texts it reads, nor about what it reads out of them.
#[verifier::external_body]
fn value_from_slice(text: &[u8]) -> (read: Result<serde_json::Value, serde_json::Error>)
    ensures
        match read {
            Ok(value) => text_value(text@) == Some(value_view(value)),
            Err(_) => text_value(text@) is None,
        },
{
    serde_json::from_slice::<serde_json::Value>(text)
}

/// Takes a `serde_json::Value` apart, variant for variant, into a [`Json`].
/// The value of a number is what `serde_json::Number::as_u64` gives; the
/// members of an object come in the order in which its map hands them out.
///
/// Trusted: the result holds what the value held.
#[verifier::external_body]
fn json_from_value(value: serde_json::Value) -> (json: Json)
    ensures
        json@ == value_view(value),
{
    match value {
        serde_json::Value::Null => Json::Null,
        serde_json::Value::Bool(flag) => Json::Bool(flag),
        serde_json::Value::Number(number) => Json::Number(number.as_u64()),
        serde_json::Value::String(text) => Json::Text(text),
        serde_json::Value::Array(items) => Json::Array(
            items.into_iter().map(json_from_value).collect(),
        ),
        serde_json::Value::Object(members) => Json::Object(
            members.into_iter().map(|(key, value)| Member { key, value: json_from_value(value) })
                .collect(),
        ),
    }
}

/// Reads a JSON document out of its text.
///
/// Returns `None` where `serde_json` reads no document out of the text:
/// where the text is not one JSON value, with nothing but white space around
/// it. Where the text gives a key twice in one object, the object holds one
/// member under that key, with the value given last.
pub fn parse(text: &[u8]) -> (document: Option<Json>)
    ensures
        match document {
            Some(json) => text_value(text@) == Some(json@),
            None => text_value(text@) is None,
        },
{
    match value_from_slice(text) {
        Ok(value) => Some(json_from_value(value)),
        Err(_) => None,
    }
}

} // verus!
