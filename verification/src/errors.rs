//! The service's error taxonomy and its rendering rules.
//!
//! Every failing operation surfaces one of five errors.  The HTTP layer
//! renders an error as a status code and a JSON body holding one message;
//! both are fixed by the error value alone.

use vstd::prelude::*;

verus! {

/// The body of every error response.
#[derive(Clone, Debug, PartialEq, Eq)]
pub struct ErrorRespPayload {
    pub message: String,
}

/// The flat error taxonomy of the service.
#[derive(Clone, Debug, PartialEq, Eq)]
pub enum ServiceError {
    InternalServerError(String),
    BadRequest(String),
    Unauthorized,
    Forbidden,
    NotFound,
}

/// The HTTP status code that an error is rendered with.
pub open spec fn spec_status_code(e: ServiceError) -> u16 {
    match e {
        ServiceError::InternalServerError(_) => 500,
        ServiceError::BadRequest(_) => 400,
        ServiceError::Unauthorized => 401,
        ServiceError::Forbidden => 403,
        ServiceError::NotFound => 404,
    }
}

/// The message that an error's response body carries.
pub open spec fn spec_error_message(e: ServiceError) -> Seq<char> {
    match e {
        ServiceError::InternalServerError(m) => m@,
        ServiceError::BadRequest(m) => m@,
        ServiceError::Unauthorized => "Unauthorized"@,
        ServiceError::Forbidden => "Forbidden"@,
        ServiceError::NotFound => "Record not found"@,
    }
}

impl ServiceError {
    /// The HTTP status code that this error is rendered with.
    pub fn status_code(&self) -> (code: u16)
        ensures
            code == spec_status_code(*self),
    {
        match self {
            ServiceError::InternalServerError(_) => 500,
            ServiceError::BadRequest(_) => 400,
            ServiceError::Unauthorized => 401,
            ServiceError::Forbidden => 403,
            ServiceError::NotFound => 404,
        }
    }

    /// The body that this error's response carries.
    pub fn to_payload(&self) -> (p: ErrorRespPayload)
        ensures
            p.message@ == spec_error_message(*self),
    {
        match self {
            ServiceError::InternalServerError(m) => ErrorRespPayload { message: m.clone() },
            ServiceError::BadRequest(m) => ErrorRespPayload { message: m.clone() },
            ServiceError::Unauthorized => ErrorRespPayload {
                message: String::from_str("Unauthorized"),
            },
            ServiceError::Forbidden => ErrorRespPayload {
                message: String::from_str("Forbidden"),
            },
            ServiceError::NotFound => ErrorRespPayload {
                message: String::from_str("Record not found"),
            },
        }
    }

    /// The error that a malformed or mismatched identifier in a request
    /// path or header is reported as.
    pub fn from_id_parse_error(_e: crate::ids::IdParseError) -> (r: ServiceError)
        ensures
            r matches ServiceError::BadRequest(m) && m@ == "Invalid UUID"@,
    {
        ServiceError::BadRequest(String::from_str("Invalid UUID"))
    }
}

} // verus!
