//! The API error type and the body that is sent back for it.

use vstd::prelude::*;

verus! {

/// An error that a request handler answers with.
#[derive(Debug, PartialEq, Eq)]
pub enum ApiError {
    BadRequest(String),
    NotFound(String),
    InternalServer(String),
}

/// The JSON body of an error reply: `{"message": ...}`, with the field left
/// out when the message is empty.
#[derive(Debug)]
pub struct ErrorResponse {
    pub message: String,
}

impl ApiError {
    /// The text that the error carries, whatever its kind.
    pub open spec fn spec_message(&self) -> Seq<char> {
        match self {
            ApiError::BadRequest(m) => m@,
            ApiError::NotFound(m) => m@,
            ApiError::InternalServer(m) => m@,
        }
    }

    /// The HTTP status that answers this error.
    pub open spec fn spec_status(&self) -> u16 {
        match self {
            ApiError::BadRequest(_) => 400,
            ApiError::NotFound(_) => 404,
            ApiError::InternalServer(_) => 500,
        }
    }

    /// `r` is the reply to this error: its status and a body that carries
    /// its text.
    pub open spec fn answered_by(&self, r: (u16, ErrorResponse)) -> bool {
        r.0 == self.spec_status() && r.1.spec_message() == self.spec_message()
    }

    /// The error's text, as the error's `Display` prints it.
    pub fn message(&self) -> (m: String)
        ensures
            m@ == self.spec_message(),
    {
        match self {
            ApiError::BadRequest(m) => m.clone(),
            ApiError::NotFound(m) => m.clone(),
            ApiError::InternalServer(m) => m.clone(),
        }
    }

    /// The HTTP status code of the reply to this error.
    pub fn status_code(&self) -> (s: u16)
        ensures
            s == self.spec_status(),
    {
        match self {
            ApiError::BadRequest(_) => 400,
            ApiError::NotFound(_) => 404,
            ApiError::InternalServer(_) => 500,
        }
    }

    /// The reply to this error: its status code and a body that carries its text.
    pub fn error_response(&self) -> (r: (u16, ErrorResponse))
        ensures
            self.answered_by(r),
    {
        (self.status_code(), ErrorResponse::from(self.message()))
    }
}

impl ErrorResponse {
    pub open spec fn spec_message(&self) -> Seq<char> {
        self.message@
    }
}

impl Default for ErrorResponse {
    fn default() -> (r: Self)
        ensures
            r.spec_message() == Seq::<char>::empty(),
    {
        ErrorResponse { message: String::new() }
    }
}

impl From<String> for ErrorResponse {
    fn from(error: String) -> (r: Self) {
        ErrorResponse { message: error }
    }
}

impl vstd::std_specs::convert::FromSpecImpl<String> for ErrorResponse {
    open spec fn obeys_from_spec() -> bool {
        true
    }

    open spec fn from_spec(v: String) -> Self {
        ErrorResponse { message: v }
    }
}

} // verus!
