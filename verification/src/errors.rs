//! The closed taxonomy of request-level failures, each mapped to an HTTP
//! status, plus the error kinds of the outbound client.

use vstd::prelude::*;

verus! {

/// A request-scoped failure. The set is closed: the recovery middleware
/// classifies a failed request against exactly these kinds, and anything
/// outside them passes through unclassified.
pub enum RequestError {
    /// Malformed or misdirected caller input. Mapped to HTTP 400.
    BadRequest { message: String },
    /// An unexpected failure of the bridge's own logic. Mapped to HTTP 500.
    InternalServerError { message: String },
}

impl RequestError {
    /// The HTTP status this kind maps to.
    pub open spec fn spec_status(&self) -> u16 {
        match self {
            RequestError::BadRequest { .. } => 400,
            RequestError::InternalServerError { .. } => 500,
        }
    }

    /// The diagnostic message carried by the error.
    pub open spec fn spec_message(&self) -> Seq<char> {
        match self {
            RequestError::BadRequest { message } => message@,
            RequestError::InternalServerError { message } => message@,
        }
    }

    pub fn status(&self) -> (s: u16)
        ensures
            s == self.spec_status(),
    {
        match self {
            RequestError::BadRequest { .. } => 400,
            RequestError::InternalServerError { .. } => 500,
        }
    }

    pub fn message(&self) -> (m: &String)
        ensures
            m@ == self.spec_message(),
    {
        match self {
            RequestError::BadRequest { message } => message,
            RequestError::InternalServerError { message } => message,
        }
    }
}

} // verus!
