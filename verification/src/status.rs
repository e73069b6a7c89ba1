//! HTTP status codes that the handlers answer with.

use vstd::prelude::*;

verus! {

/// The status codes that a handler can answer with.
#[derive(Clone, Copy, Debug, PartialEq, Eq, Structural)]
pub enum Status {
    Okay,
    Created,
    NoContent,
    BadRequest,
    Unauthorized,
    NotFound,
    RequestTimeout,
    Conflict,
    InternalServerError,
    BadGateway,
    ServiceUnavailable,
}

impl Status {
    /// The numeric code of a status.
    pub open spec fn number(self) -> u16 {
        match self {
            Status::Okay => 200,
            Status::Created => 201,
            Status::NoContent => 204,
            Status::BadRequest => 400,
            Status::Unauthorized => 401,
            Status::NotFound => 404,
            Status::RequestTimeout => 408,
            Status::Conflict => 409,
            Status::InternalServerError => 500,
            Status::BadGateway => 502,
            Status::ServiceUnavailable => 503,
        }
    }

    /// The numeric code that goes on the wire.
    pub fn code(&self) -> (n: u16)
        ensures
            n == self.number(),
    {
        match self {
            Status::Okay => 200,
            Status::Created => 201,
            Status::NoContent => 204,
            Status::BadRequest => 400,
            Status::Unauthorized => 401,
            Status::NotFound => 404,
            Status::RequestTimeout => 408,
            Status::Conflict => 409,
            Status::InternalServerError => 500,
            Status::BadGateway => 502,
            Status::ServiceUnavailable => 503,
        }
    }
}

} // verus!
