//! The request handler: from a request to the reply and the write.
//!
//! The service has one route, `POST /`. A request to it whose body decodes
//! into a record is answered with `201` and `User created`, and asks for one
//! write: the record, field for field. Every other request is refused and
//! asks for none. Whether the write then succeeds is not the handler's to
//! know: the reply does not wait for it.

use crate::json::{parse, text_value, Json, JsonView};
use crate::record::{User, UserFields, UserRequest};
use crate::reply::{Reply, ReplyView, Status};
use crate::schema::{decode_user_request, decoded};
use crate::text::same_text;
use vstd::prelude::*;

verus! {

/// What the handler decides as mathematical values.
pub struct OutcomeView {
    pub reply: ReplyView,
    pub write: Option<UserFields>,
}

/// What the handler decides for one request: the reply to send and, where
/// the request is accepted, the record to append to the collection.
#[derive(Debug, Clone, PartialEq, Eq)]
pub struct Outcome {
    pub reply: Reply,
    pub write: Option<User>,
}

impl View for Outcome {
    type V = OutcomeView;

    open spec fn view(&self) -> OutcomeView {
        OutcomeView {
            reply: self.reply@,
            write: match self.write {
                Some(user) => Some(user@),
                None => None,
            },
        }
    }
}

/// The outcome of an accepted record: `201`, and one write of these fields.
pub open spec fn accepted(fields: UserFields) -> OutcomeView {
    OutcomeView { reply: Reply::of(Status::Created), write: Some(fields) }
}

/// The outcome of a refused request: the status, and no write.
pub open spec fn refused(status: Status) -> OutcomeView {
    OutcomeView { reply: Reply::of(status), write: None }
}

/// Why a request is not for the route, if it is not: another path is not
/// found, and on the right path another method is not allowed.
pub open spec fn misrouted(method: Seq<char>, path: Seq<char>) -> Option<Status> {
    if path != "/"@ {
        Some(Status::NotFound)
    } else if method != "POST"@ {
        Some(Status::MethodNotAllowed)
    } else {
        None
    }
}

/// The outcome for the body of a request to the route, given the document
/// that was read out of it, if one was.
pub open spec fn document_outcome(document: Option<JsonView>) -> OutcomeView {
    match document {
        None => refused(Status::BadRequest),
        Some(json) => match decoded(json) {
            Ok(fields) => accepted(fields),
            Err(_) => refused(Status::BadRequest),
        },
    }
}

/// The outcome for a request.
pub open spec fn answer(
    method: Seq<char>,
    path: Seq<char>,
    document: Option<JsonView>,
) -> OutcomeView {
    match misrouted(method, path) {
        Some(status) => refused(status),
        None => document_outcome(document),
    }
}

/// Refuses a request with `status`.
pub fn refuse(status: Status) -> (outcome: Outcome)
    ensures
        outcome@ == refused(status),
{
    Outcome { reply: Reply::with_status(status), write: None }
}

/// Accepts a submitted record: builds the record to persist by copying each
/// field, and answers `201` with `User created`.
pub fn create_user(entry: UserRequest) -> (outcome: Outcome)
    ensures
        outcome@ == accepted(entry@),
{
    let user = User {
        name: entry.name,
        age: entry.age,
        email: entry.email,
        characteristics: entry.characteristics,
    };
    Outcome { reply: Reply::with_status(Status::Created), write: Some(user) }
}

/// Tells whether a request is for the route, and with which status it is
/// refused if it is not.
pub fn route(method: &str, path: &str) -> (refusal: Option<Status>)
    ensures
        refusal == misrouted(method@, path@),
{
    if !same_text(path, "/") {
        Some(Status::NotFound)
    } else if !same_text(method, "POST") {
        Some(Status::MethodNotAllowed)
    } else {
        None
    }
}

/// Handles the body of a request to the route, given the document that was
/// read out of it: `None` where the body was no JSON text.
pub fn accept_document(document: Option<Json>) -> (outcome: Outcome)
    ensures
        outcome@ == document_outcome(
            match document {
                Some(json) => Some(json@),
                None => None,
            },
        ),
{
    match document {
        None => refuse(Status::BadRequest),
        Some(json) => match decode_user_request(&json) {
            Ok(entry) => create_user(entry),
            Err(_) => refuse(Status::BadRequest),
        },
    }
}

/// Handles a request: its method, its path and the bytes of its body.
///
/// The body is read as JSON only where the request is for the route.
pub fn respond(method: &str, path: &str, body: &[u8]) -> (outcome: Outcome)
    ensures
        outcome@ == answer(method@, path@, text_value(body@)),
{
    match route(method, path) {
        Some(status) => refuse(status),
        None => accept_document(parse(body)),
    }
}

} // verus!
