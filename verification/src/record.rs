//! The user record: the one entity this service knows.
//!
//! A record has four attributes and no invariant beyond their types: any text
//! is a name or an e-mail address, any age from 0 to 255 is an age, and any
//! list of texts, the empty one too, is a list of characteristics.

use vstd::prelude::*;

verus! {

/// The four attributes of a user record as mathematical values. Both the
/// submitted and the persisted shape are viewed as this.
pub struct UserFields {
    pub name: Seq<char>,
    pub age: u8,
    pub email: Seq<char>,
    pub characteristics: Seq<Seq<char>>,
}

/// A user record as a client submits it.
#[derive(Debug, Clone, PartialEq, Eq)]
pub struct UserRequest {
    pub name: String,
    pub age: u8,
    pub email: String,
    pub characteristics: Vec<String>,
}

impl View for UserRequest {
    type V = UserFields;

    open spec fn view(&self) -> UserFields {
        UserFields {
            name: self.name@,
            age: self.age,
            email: self.email@,
            characteristics: self.characteristics.deep_view(),
        }
    }
}

/// A user record as it is persisted. It carries no identifier: the database
/// assigns one on insert, and the service never reads it back.
#[derive(Debug, Clone, PartialEq, Eq)]
pub struct User {
    pub name: String,
    pub age: u8,
    pub email: String,
    pub characteristics: Vec<String>,
}

impl View for User {
    type V = UserFields;

    open spec fn view(&self) -> UserFields {
        UserFields {
            name: self.name@,
            age: self.age,
            email: self.email@,
            characteristics: self.characteristics.deep_view(),
        }
    }
}

} // verus!
