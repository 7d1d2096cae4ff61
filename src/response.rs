//! The closed result of an operation, and the one mapping from it to an HTTP
//! status and body.
use vstd::prelude::*;

use crate::model::{Resource, ResourceKind};

verus! {

/// Why a request parameter or body was rejected.
#[derive(Clone, Copy, Debug, PartialEq, Eq, Structural)]
pub enum Invalid {
    /// The id segment of the path is not a decimal integer that fits in `i64`.
    BadId,
    /// The request body is not a well-formed create or update input.
    MalformedBody,
}

/// Every way an operation can fail.
#[derive(Clone, Copy, Debug, PartialEq, Eq, Structural)]
pub enum Failure {
    /// No route matches the request, or no row has the requested id.
    NotFound,
    /// A path parameter or the body is malformed.
    Invalid(Invalid),
    /// The store could not be reached or refused the statement.
    Persistence,
}

/// The operation that a request asks for.
#[derive(Clone, Copy, Debug, PartialEq, Eq, Structural)]
pub enum Verb {
    List,
    Get,
    Create,
    Update,
    Delete,
}

/// What a successful operation yields.
#[derive(Clone, Debug, PartialEq, Eq)]
pub enum Success {
    /// One resource: read, created or updated.
    One(Resource),
    /// The whole collection, ascending by id.
    Many(Vec<Resource>),
    /// A resource was removed.
    Deleted,
}

/// The result of an operation.
pub type Outcome = Result<Success, Failure>;

/// A fixed text that a response carries in place of a resource.
#[derive(Clone, Copy, Debug, PartialEq, Eq, Structural)]
pub enum Notice {
    Deleted,
    NotFound,
    BadId,
    MalformedBody,
    Internal,
}

/// The body of a response.
#[derive(Clone, Debug, PartialEq, Eq)]
pub enum Body {
    One(Resource),
    Many(Vec<Resource>),
    Notice(Notice),
}

/// An HTTP response: a status code and a body.
#[derive(Clone, Debug, PartialEq, Eq)]
pub struct Response {
    pub status: u16,
    pub body: Body,
}

impl Failure {
    pub open spec fn spec_status(self) -> u16 {
        match self {
            Failure::NotFound => 404,
            Failure::Invalid(_) => 400,
            Failure::Persistence => 500,
        }
    }

    pub open spec fn spec_notice(self) -> Notice {
        match self {
            Failure::NotFound => Notice::NotFound,
            Failure::Invalid(Invalid::BadId) => Notice::BadId,
            Failure::Invalid(Invalid::MalformedBody) => Notice::MalformedBody,
            Failure::Persistence => Notice::Internal,
        }
    }

    /// The status code of the failure: 404, 400 or 500.
    pub fn status(self) -> (r: u16)
        ensures
            r == self.spec_status(),
    {
        match self {
            Failure::NotFound => 404,
            Failure::Invalid(_) => 400,
            Failure::Persistence => 500,
        }
    }

    /// The text that the failure's response carries. A store failure maps to
    /// one generic text, so that no detail of the store reaches the client.
    pub fn notice(self) -> (r: Notice)
        ensures
            r == self.spec_notice(),
    {
        match self {
            Failure::NotFound => Notice::NotFound,
            Failure::Invalid(Invalid::BadId) => Notice::BadId,
            Failure::Invalid(Invalid::MalformedBody) => Notice::MalformedBody,
            Failure::Persistence => Notice::Internal,
        }
    }
}

impl Notice {
    pub open spec fn spec_text(self, kind: ResourceKind) -> Seq<char> {
        match (self, kind) {
            (Notice::Deleted, ResourceKind::User) => "User deleted"@,
            (Notice::Deleted, ResourceKind::Post) => "Post deleted"@,
            (Notice::NotFound, ResourceKind::User) => "User not found"@,
            (Notice::NotFound, ResourceKind::Post) => "Post not found"@,
            (Notice::BadId, _) => "Invalid id: expected an integer"@,
            (Notice::MalformedBody, _) => "Malformed request body"@,
            (Notice::Internal, _) => "Internal server error"@,
        }
    }

    /// The human-readable text of the notice for a collection.
    pub fn text(self, kind: ResourceKind) -> (r: &'static str)
        ensures
            r@ == self.spec_text(kind),
    {
        match (self, kind) {
            (Notice::Deleted, ResourceKind::User) => "User deleted",
            (Notice::Deleted, ResourceKind::Post) => "Post deleted",
            (Notice::NotFound, ResourceKind::User) => "User not found",
            (Notice::NotFound, ResourceKind::Post) => "Post not found",
            (Notice::BadId, _) => "Invalid id: expected an integer",
            (Notice::MalformedBody, _) => "Malformed request body",
            (Notice::Internal, _) => "Internal server error",
        }
    }
}

/// The status of the response to `outcome` of an operation `verb`: 201 for a
/// created resource, 200 for any other success, the failure's own otherwise.
pub open spec fn status_for(verb: Verb, outcome: Outcome) -> u16 {
    match outcome {
        Ok(_) => if verb == Verb::Create { 201 } else { 200 },
        Err(f) => f.spec_status(),
    }
}

/// The body of the response to `outcome`.
pub open spec fn body_for(outcome: Outcome) -> Body {
    match outcome {
        Ok(Success::One(r)) => Body::One(r),
        Ok(Success::Many(v)) => Body::Many(v),
        Ok(Success::Deleted) => Body::Notice(Notice::Deleted),
        Err(f) => Body::Notice(f.spec_notice()),
    }
}

/// Maps the outcome of an operation to its HTTP response.
pub fn respond(verb: Verb, outcome: Outcome) -> (r: Response)
    ensures
        r.status == status_for(verb, outcome),
        r.body == body_for(outcome),
{
    match outcome {
        Ok(success) => {
            let status: u16 = match verb {
                Verb::Create => 201,
                _ => 200,
            };
            let body = match success {
                Success::One(r) => Body::One(r),
                Success::Many(v) => Body::Many(v),
                Success::Deleted => Body::Notice(Notice::Deleted),
            };
            Response { status, body }
        },
        Err(f) => Response { status: f.status(), body: Body::Notice(f.notice()) },
    }
}

} // verus!
