//! Status vocabulary of the service and the error value every use case
//! reports with.

use vstd::prelude::*;

pub mod error_handler;

verus! {

/// The HTTP statuses the service answers with.
#[derive(Debug, Clone, Copy, PartialEq, Eq, Structural)]
pub enum HttpCodeW {
    OK,
    Created,
    BadRequest,
    Unauthorized,
    Forbidden,
    NotFound,
    Conflict,
    InternalServerError,
}

impl HttpCodeW {
    /// Numeric status of the code.
    pub open spec fn number(self) -> int {
        match self {
            HttpCodeW::OK => 200,
            HttpCodeW::Created => 201,
            HttpCodeW::BadRequest => 400,
            HttpCodeW::Unauthorized => 401,
            HttpCodeW::Forbidden => 403,
            HttpCodeW::NotFound => 404,
            HttpCodeW::Conflict => 409,
            HttpCodeW::InternalServerError => 500,
        }
    }

    pub fn as_u16(&self) -> (r: u16)
        ensures
            r == self.number(),
    {
        match self {
            HttpCodeW::OK => 200,
            HttpCodeW::Created => 201,
            HttpCodeW::BadRequest => 400,
            HttpCodeW::Unauthorized => 401,
            HttpCodeW::Forbidden => 403,
            HttpCodeW::NotFound => 404,
            HttpCodeW::Conflict => 409,
            HttpCodeW::InternalServerError => 500,
        }
    }

    /// True for the statuses that report a failure.
    pub fn is_error(&self) -> (r: bool)
        ensures
            r == (self.number() >= 400),
    {
        !matches!(self, HttpCodeW::OK | HttpCodeW::Created)
    }
}

} // verus!
