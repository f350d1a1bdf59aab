use vstd::prelude::*;
use vstd::string::StringExecFns;

verus! {

/// Errors the application reports to its users.
#[derive(Clone, Copy, Debug, PartialEq, Eq, Structural)]
pub enum AudioAppError {
    NotFound,
    InternalServerError,
}

impl AudioAppError {
    /// The HTTP status code of the error.
    pub fn status_code(&self) -> (r: u16)
        ensures
            r == (match self {
                AudioAppError::NotFound => 404u16,
                AudioAppError::InternalServerError => 500u16,
            }),
    {
        match self {
            AudioAppError::NotFound => 404,
            AudioAppError::InternalServerError => 500,
        }
    }

    /// The message shown for the error.
    pub fn message(&self) -> (r: String)
        ensures
            r@ == (match self {
                AudioAppError::NotFound => "Not Found"@,
                AudioAppError::InternalServerError => "Internal Server Error"@,
            }),
    {
        match self {
            AudioAppError::NotFound => String::from_str("Not Found"),
            AudioAppError::InternalServerError => String::from_str("Internal Server Error"),
        }
    }
}

} // verus!
