//! The outcomes that the dispatcher answers a notification with.

use vstd::prelude::*;

verus! {

/// The outcome of handling one notification, named after the HTTP status
/// that reports it.
#[derive(Clone, Copy, Debug, PartialEq, Eq, Structural)]
pub enum Status {
    /// At least one target fired and its job was queued.
    Success,
    /// The branch is a configured one, but the state is not a success:
    /// acknowledged, nothing queued.
    Accepted,
    /// The repository is known, but no target is configured for the branch.
    NoContent,
    /// The request carried more than one signature.
    BadRequest,
    /// The signature is missing or does not match.
    Unauthorized,
    /// The repository is not configured at all.
    NotFound,
    /// The body is not a status notification.
    UnprocessableEntity,
    /// The notification names a commit that none of its own branches
    /// points at.
    InternalServerError,
}

/// The HTTP status code of an outcome.
pub open spec fn spec_code(status: Status) -> u16 {
    match status {
        Status::Success => 200,
        Status::Accepted => 202,
        Status::NoContent => 204,
        Status::BadRequest => 400,
        Status::Unauthorized => 401,
        Status::NotFound => 404,
        Status::UnprocessableEntity => 422,
        Status::InternalServerError => 500,
    }
}

impl Status {
    /// The HTTP status code of this outcome.
    pub fn code(&self) -> (r: u16)
        ensures
            r == spec_code(*self),
    {
        match self {
            Status::Success => 200,
            Status::Accepted => 202,
            Status::NoContent => 204,
            Status::BadRequest => 400,
            Status::Unauthorized => 401,
            Status::NotFound => 404,
            Status::UnprocessableEntity => 422,
            Status::InternalServerError => 500,
        }
    }
}

} // verus!
