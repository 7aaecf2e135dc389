//! The shape of a submitted record, and decoding a JSON document against it.
//!
//! A record is a JSON object with four members: `name` and `email` are
//! texts, `age` is a whole number from 0 to 255, and `characteristics` is an
//! array of texts, which may be empty. Members under other keys are passed
//! over, and where a key stands more than once the first member under it
//! counts. Nothing is checked beyond these types.

use crate::json::{member_of, Json, JsonView};
use crate::record::{UserFields, UserRequest};
use vstd::prelude::*;

verus! {

/// The four members that a record must have.
#[derive(Debug, Clone, Copy, PartialEq, Eq, Structural)]
pub enum Field {
    Name,
    Age,
    Email,
    Characteristics,
}

/// Why a document is not a record.
#[derive(Debug, Clone, Copy, PartialEq, Eq, Structural)]
pub enum DecodeError {
    /// The document is not a JSON object.
    NotAnObject,
    /// The object has no member under the field's key.
    Missing(Field),
    /// The member under the field's key is not of the field's type.
    Mistyped(Field),
}

/// Whether every item is a text.
pub open spec fn all_text(items: Seq<JsonView>) -> bool {
    forall|i: int| 0 <= i < items.len() ==> items[i] is Text
}

/// The texts that the items hold, in order.
pub open spec fn texts_of(items: Seq<JsonView>) -> Seq<Seq<char>>
    recommends
        all_text(items),
{
    Seq::new(items.len(), |i: int| items[i]->Text_0)
}

impl Field {
    /// The key under which the field stands in a JSON object.
    pub open spec fn key_of(self) -> Seq<char> {
        match self {
            Field::Name => "name"@,
            Field::Age => "age"@,
            Field::Email => "email"@,
            Field::Characteristics => "characteristics"@,
        }
    }

    /// Whether `value` is of the field's type.
    pub open spec fn admits(self, value: JsonView) -> bool {
        match self {
            Field::Name => value is Text,
            Field::Age => value matches JsonView::Number(Some(n)) && n <= 255,
            Field::Email => value is Text,
            Field::Characteristics => value matches JsonView::Array(items) && all_text(items),
        }
    }

    /// What is wrong with the field in an object of these members: `None`
    /// where the member is there and of the field's type.
    pub open spec fn fault_in(self, members: Seq<(Seq<char>, JsonView)>) -> Option<DecodeError> {
        match member_of(members, self.key_of()) {
            None => Some(DecodeError::Missing(self)),
            Some(value) => if self.admits(value) {
                None
            } else {
                Some(DecodeError::Mistyped(self))
            },
        }
    }

    /// The key under which the field stands in a JSON object.
    pub fn key(self) -> (key: &'static str)
        ensures
            key@ == self.key_of(),
    {
        match self {
            Field::Name => "name",
            Field::Age => "age",
            Field::Email => "email",
            Field::Characteristics => "characteristics",
        }
    }
}

/// Whether a document has the shape of a record: an object in which each of
/// the four fields is there and of its type.
pub open spec fn conforms(json: JsonView) -> bool {
    &&& json matches JsonView::Object(members)
    &&& Field::Name.fault_in(members) is None
    &&& Field::Age.fault_in(members) is None
    &&& Field::Email.fault_in(members) is None
    &&& Field::Characteristics.fault_in(members) is None
}

/// The record that a conforming document describes: each attribute is what
/// the member under its key holds.
pub open spec fn fields_of(members: Seq<(Seq<char>, JsonView)>) -> UserFields {
    UserFields {
        name: member_of(members, Field::Name.key_of()).unwrap()->Text_0,
        age: member_of(members, Field::Age.key_of()).unwrap()->Number_0.unwrap() as u8,
        email: member_of(members, Field::Email.key_of()).unwrap()->Text_0,
        characteristics: texts_of(
            member_of(members, Field::Characteristics.key_of()).unwrap()->Array_0,
        ),
    }
}

/// What decoding a document gives: the record it describes, or the first
/// thing wrong with it. The fields are looked at in the order name, age,
/// e-mail, characteristics.
pub open spec fn decoded(json: JsonView) -> Result<UserFields, DecodeError> {
    match json {
        JsonView::Object(members) => {
            if let Some(fault) = Field::Name.fault_in(members) {
                Err(fault)
            } else if let Some(fault) = Field::Age.fault_in(members) {
                Err(fault)
            } else if let Some(fault) = Field::Email.fault_in(members) {
                Err(fault)
            } else if let Some(fault) = Field::Characteristics.fault_in(members) {
                Err(fault)
            } else {
                Ok(fields_of(members))
            }
        },
        _ => Err(DecodeError::NotAnObject),
    }
}

/// Decoding succeeds on the documents that have the shape of a record, and
/// on no others.
pub proof fn lemma_decoded_iff_conforms(json: JsonView)
    ensures
        decoded(json) is Ok <==> conforms(json),
{
}

/// A document in which one of the four fields is missing or of the wrong
/// type is not decoded, whatever else it holds.
pub proof fn lemma_faulty_field_is_refused(members: Seq<(Seq<char>, JsonView)>, field: Field)
    requires
        field.fault_in(members) is Some,
    ensures
        decoded(JsonView::Object(members)) is Err,
{
}

/// Reads the text member `field` of an object.
fn text_member(json: &Json, field: Field) -> (read: Result<String, DecodeError>)
    requires
        json@ is Object,
        field == Field::Name || field == Field::Email,
    ensures
        match read {
            Ok(text) => field.fault_in(json@->Object_0) is None && text@ == member_of(
                json@->Object_0,
                field.key_of(),
            ).unwrap()->Text_0,
            Err(fault) => field.fault_in(json@->Object_0) == Some(fault),
        },
{
    match json.get(field.key()) {
        None => Err(DecodeError::Missing(field)),
        Some(Json::Text(text)) => Ok(text.clone()),
        Some(_) => Err(DecodeError::Mistyped(field)),
    }
}

/// Reads the member `age` of an object.
fn age_member(json: &Json) -> (read: Result<u8, DecodeError>)
    requires
        json@ is Object,
    ensures
        match read {
            Ok(age) => Field::Age.fault_in(json@->Object_0) is None && age == member_of(
                json@->Object_0,
                Field::Age.key_of(),
            ).unwrap()->Number_0.unwrap(),
            Err(fault) => Field::Age.fault_in(json@->Object_0) == Some(fault),
        },
{
    match json.get(Field::Age.key()) {
        None => Err(DecodeError::Missing(Field::Age)),
        Some(Json::Number(Some(number))) => {
            if *number <= 255 {
                Ok(*number as u8)
            } else {
                Err(DecodeError::Mistyped(Field::Age))
            }
        },
        Some(_) => Err(DecodeError::Mistyped(Field::Age)),
    }
}

/// Reads the member `characteristics` of an object.
fn characteristics_member(json: &Json) -> (read: Result<Vec<String>, DecodeError>)
    requires
        json@ is Object,
    ensures
        match read {
            Ok(texts) => Field::Characteristics.fault_in(json@->Object_0) is None
                && texts.deep_view() == texts_of(
                member_of(json@->Object_0, Field::Characteristics.key_of()).unwrap()->Array_0,
            ),
            Err(fault) => Field::Characteristics.fault_in(json@->Object_0) == Some(fault),
        },
{
    match json.get(Field::Characteristics.key()) {
        None => Err(DecodeError::Missing(Field::Characteristics)),
        Some(Json::Array(items)) => {
            let ghost held = member_of(
                json@->Object_0,
                Field::Characteristics.key_of(),
            ).unwrap()->Array_0;
            let mut texts: Vec<String> = Vec::new();
            let mut i: usize = 0;
            while i < items.len()
                invariant
                    i <= items.len(),
                    member_of(json@->Object_0, Field::Characteristics.key_of()) == Some(
                        JsonView::Array(held),
                    ),
                    held.len() == items.len(),
                    forall|k: int| 0 <= k < items.len() ==> held[k] == items[k]@,
                    texts.len() == i,
                    forall|k: int| 0 <= k < i ==> held[k] is Text && texts[k]@ == held[k]->Text_0,
                decreases items.len() - i,
            {
                match &items[i] {
                    Json::Text(text) => {
                        texts.push(text.clone());
                    },
                    _ => {
                        // The item at `i` shows that not every item is a text.
                        assert(!(held[i as int] is Text));
                        return Err(DecodeError::Mistyped(Field::Characteristics));
                    },
                }
                i = i + 1;
            }
            assert(texts.deep_view() =~= texts_of(held));
            Ok(texts)
        },
        Some(_) => Err(DecodeError::Mistyped(Field::Characteristics)),
    }
}

/// Decodes a JSON document into a submitted record.
///
/// Succeeds exactly on the documents that have the shape of a record, and
/// then copies each attribute out of the member under its key. Otherwise it
/// names the first thing wrong, the fields taken in the order name, age,
/// e-mail, characteristics.
pub fn decode_user_request(json: &Json) -> (read: Result<UserRequest, DecodeError>)
    ensures
        match read {
            Ok(entry) => decoded(json@) == Ok::<UserFields, DecodeError>(entry@),
            Err(fault) => decoded(json@) == Err::<UserFields, DecodeError>(fault),
        },
{
    match json {
        Json::Object(_) => {},
        _ => {
            return Err(DecodeError::NotAnObject);
        },
    }
    let name = match text_member(json, Field::Name) {
        Ok(text) => text,
        Err(fault) => {
            return Err(fault);
        },
    };
    let age = match age_member(json) {
        Ok(age) => age,
        Err(fault) => {
            return Err(fault);
        },
    };
    let email = match text_member(json, Field::Email) {
        Ok(text) => text,
        Err(fault) => {
            return Err(fault);
        },
    };
    let characteristics = match characteristics_member(json) {
        Ok(texts) => texts,
        Err(fault) => {
            return Err(fault);
        },
    };
    Ok(UserRequest { name, age, email, characteristics })
}

} // verus!
