//! The error taxonomy shared by every service, and its HTTP status mapping.
use vstd::prelude::*;

verus! {

/// A failure, classified by how it surfaces to a client, with a message that
/// is safe to show.
#[derive(Debug)]
pub enum Error {
    BadRequest(String),
    Unauthorized(String),
    Forbidden(String),
    NotFound(String),
    InternalServerError(String),
}

impl Error {
    /// The message carried by any variant.
    pub open spec fn text(&self) -> Seq<char> {
        match self {
            Error::BadRequest(v) => v@,
            Error::Unauthorized(v) => v@,
            Error::Forbidden(v) => v@,
            Error::NotFound(v) => v@,
            Error::InternalServerError(v) => v@,
        }
    }

    /// The HTTP status code of each variant.
    pub open spec fn status(&self) -> u16 {
        match self {
            Error::BadRequest(_) => 400,
            Error::Unauthorized(_) => 401,
            Error::Forbidden(_) => 403,
            Error::NotFound(_) => 404,
            Error::InternalServerError(_) => 500,
        }
    }

    /// HTTP status code: 400, 401, 403, 404 or 500.
    pub fn code(&self) -> (r: u16)
        ensures
            r == self.status(),
    {
        match self {
            Error::BadRequest(_) => 400,
            Error::Unauthorized(_) => 401,
            Error::Forbidden(_) => 403,
            Error::NotFound(_) => 404,
            Error::InternalServerError(_) => 500,
        }
    }

    /// A copy of the message.
    pub fn message(&self) -> (r: String)
        ensures
            r@ == self.text(),
    {
        match self {
            Error::BadRequest(v) => v.clone(),
            Error::Unauthorized(v) => v.clone(),
            Error::Forbidden(v) => v.clone(),
            Error::NotFound(v) => v.clone(),
            Error::InternalServerError(v) => v.clone(),
        }
    }
}

} // verus!
