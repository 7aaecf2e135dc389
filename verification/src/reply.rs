//! What the service answers: a status and a plain-text body.

use vstd::prelude::*;

verus! {

/// The statuses this service answers with.
#[derive(Debug, Clone, Copy, PartialEq, Eq, Structural)]
pub enum Status {
    /// 201: the record was accepted.
    Created,
    /// 400: the body holds no JSON document, or one that does not have the
    /// shape of a record.
    BadRequest,
    /// 404: the path is not the registered one.
    NotFound,
    /// 405: the path is the registered one, the method is not `POST`.
    MethodNotAllowed,
}

impl Status {
    /// The numeric HTTP status code.
    pub open spec fn code_of(self) -> u16 {
        match self {
            Status::Created => 201,
            Status::BadRequest => 400,
            Status::NotFound => 404,
            Status::MethodNotAllowed => 405,
        }
    }

    /// Whether the code lies in the client-error class, 400 to 499.
    pub open spec fn client_error(self) -> bool {
        400 <= self.code_of() < 500
    }

    /// The plain-text body that goes out with the status.
    pub open spec fn text_of(self) -> Seq<char> {
        match self {
            Status::Created => "User created"@,
            Status::BadRequest => "Request body deserialize error"@,
            Status::NotFound => ""@,
            Status::MethodNotAllowed => "HTTP method not allowed"@,
        }
    }

    /// The numeric HTTP status code.
    #[verifier::when_used_as_spec(code_of)]
    pub fn code(self) -> (code: u16)
        ensures
            code == self.code_of(),
    {
        match self {
            Status::Created => 201,
            Status::BadRequest => 400,
            Status::NotFound => 404,
            Status::MethodNotAllowed => 405,
        }
    }

    /// Whether the code lies in the client-error class, 400 to 499.
    #[verifier::when_used_as_spec(client_error)]
    pub fn is_client_error(self) -> (yes: bool)
        ensures
            yes == self.client_error(),
    {
        let code: u16 = self.code();
        400 <= code && code < 500
    }

    /// The plain-text body that goes out with the status.
    pub fn text(self) -> (text: &'static str)
        ensures
            text@ == self.text_of(),
    {
        match self {
            Status::Created => "User created",
            Status::BadRequest => "Request body deserialize error",
            Status::NotFound => "",
            Status::MethodNotAllowed => "HTTP method not allowed",
        }
    }
}

/// A reply as mathematical values.
pub struct ReplyView {
    pub status: Status,
    pub body: Seq<char>,
}

/// An HTTP reply: a status and a plain-text body.
#[derive(Debug, Clone, PartialEq, Eq)]
pub struct Reply {
    pub status: Status,
    pub body: String,
}

impl View for Reply {
    type V = ReplyView;

    open spec fn view(&self) -> ReplyView {
        ReplyView { status: self.status, body: self.body@ }
    }
}

impl Reply {
    /// The reply that carries `status`, with the body that belongs to it.
    pub open spec fn of(status: Status) -> ReplyView {
        ReplyView { status, body: status.text_of() }
    }

    /// Builds the reply for `status`.
    pub fn with_status(status: Status) -> (reply: Reply)
        ensures
            reply@ == Reply::of(status),
    {
        Reply { status, body: status.text().to_owned() }
    }
}

} // verus!
