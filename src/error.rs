//! The errors that the workflows return.
use vstd::prelude::*;

verus! {

/// What went wrong in a workflow; each maps to one response status.
#[derive(Clone, Copy, Debug, PartialEq, Eq, Structural)]
pub enum ImageError {
    /// The input was malformed: bad base64, or bytes that are no image.
    BadRequest,
    /// The supplied secret does not match the configured one.
    Unauthorized,
    /// An unknown image, or an unknown or broken delete token.
    NotFound,
    /// Storage or encoding failed, or the state was unexpected.
    InternalError,
}

impl ImageError {
    /// The HTTP status that reports this error.
    pub fn status_code(&self) -> (r: u16)
        ensures
            *self == ImageError::BadRequest ==> r == 400,
            *self == ImageError::Unauthorized ==> r == 401,
            *self == ImageError::NotFound ==> r == 404,
            *self == ImageError::InternalError ==> r == 500,
    {
        match self {
            ImageError::BadRequest => 400,
            ImageError::Unauthorized => 401,
            ImageError::NotFound => 404,
            ImageError::InternalError => 500,
        }
    }
}

} // verus!
