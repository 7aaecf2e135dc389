//! The service seen from outside: what a client is answered, and what the
//! collection holds afterwards.
//!
//! The collection lives in a database that this crate never touches. It is
//! modelled here as the multiset of the documents it holds: a document has
//! no key of its own, so nothing tells two equal documents apart, and
//! nothing orders the writes of two requests. What the model says holds once
//! the writes that the handler asked for have been carried out; when that
//! is, the handler does not know.

use crate::handler::{answer, OutcomeView};
use crate::json::JsonView;
use crate::record::UserFields;
use crate::reply::{ReplyView, Status};
use crate::schema::{conforms, decoded, Field};
use vstd::multiset::Multiset;
use vstd::prelude::*;

verus! {

/// The collection after the write of an outcome, if it asks for one, has
/// been carried out on `before`.
pub open spec fn stored_after(before: Multiset<UserFields>, outcome: OutcomeView) -> Multiset<
    UserFields,
> {
    match outcome.write {
        Some(fields) => before.insert(fields),
        None => before,
    }
}

/// A `POST` to the route with a document that has the shape of a record is
/// answered with `201` and the body `User created`.
pub proof fn lemma_valid_post_is_created(json: JsonView)
    requires
        conforms(json),
    ensures
        answer("POST"@, "/"@, Some(json)).reply == (ReplyView {
            status: Status::Created,
            body: "User created"@,
        }),
        Status::Created.code_of() == 201,
{
}

/// A `POST` to the route with an object in which one of the four fields is
/// missing, or is not of its type, is answered with a client error, and the
/// collection stays as it was.
pub proof fn lemma_faulty_field_is_client_error(
    members: Seq<(Seq<char>, JsonView)>,
    field: Field,
    before: Multiset<UserFields>,
)
    requires
        field.fault_in(members) is Some,
    ensures
        answer("POST"@, "/"@, Some(JsonView::Object(members))).reply.status.client_error(),
        stored_after(before, answer("POST"@, "/"@, Some(JsonView::Object(members)))) == before,
{
}

/// A `POST` to the route whose body holds no document, or a document that
/// does not have the shape of a record, is answered with `400`, and the
/// collection stays as it was.
pub proof fn lemma_undecodable_body_is_bad_request(
    document: Option<JsonView>,
    before: Multiset<UserFields>,
)
    requires
        document matches Some(json) ==> !conforms(json),
    ensures
        answer("POST"@, "/"@, document).reply.status == Status::BadRequest,
        Status::BadRequest.code_of() == 400,
        Status::BadRequest.client_error(),
        stored_after(before, answer("POST"@, "/"@, document)) == before,
{
}

/// A `POST` to the route with a document that has the shape of a record
/// adds exactly one document to the collection, and that document holds the
/// submitted fields.
pub proof fn lemma_valid_post_stores_one(json: JsonView, before: Multiset<UserFields>)
    requires
        conforms(json),
    ensures
        ({
            let fields = decoded(json)->Ok_0;
            let after = stored_after(before, answer("POST"@, "/"@, Some(json)));
            &&& after == before.insert(fields)
            &&& after.len() == before.len() + 1
            &&& after.count(fields) == before.count(fields) + 1
            &&& forall|other: UserFields| other != fields ==> after.count(other) == before.count(other)
        }),
{
}

/// Submitting is not idempotent: the same document submitted twice is
/// stored twice.
pub proof fn lemma_resubmission_stores_twice(json: JsonView, before: Multiset<UserFields>)
    requires
        conforms(json),
    ensures
        ({
            let fields = decoded(json)->Ok_0;
            let outcome = answer("POST"@, "/"@, Some(json));
            let after = stored_after(stored_after(before, outcome), outcome);
            &&& after.len() == before.len() + 2
            &&& after.count(fields) == before.count(fields) + 2
            &&& forall|other: UserFields| other != fields ==> after.count(other) == before.count(other)
        }),
{
}

/// A request to another path, or with another method, is answered with
/// `404` or `405` whatever its body holds, and the collection stays as it
/// was.
pub proof fn lemma_other_requests_are_refused(
    method: Seq<char>,
    path: Seq<char>,
    document: Option<JsonView>,
    before: Multiset<UserFields>,
)
    requires
        path != "/"@ || method != "POST"@,
    ensures
        ({
            let status = answer(method, path, document).reply.status;
            status == Status::NotFound || status == Status::MethodNotAllowed
        }),
        Status::NotFound.code_of() == 404,
        Status::MethodNotAllowed.code_of() == 405,
        stored_after(before, answer(method, path, document)) == before,
{
}

} // verus!
