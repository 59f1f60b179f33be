//! The user-facing error taxonomy, the mapping from raw store failures
//! into it, and the exact HTTP response each error produces.

use vstd::prelude::*;
use vstd::string::StringExecFns;
use crate::response::{ErrorResponseModel, HttpReply, ResponseBody, is_error_reply};

verus! {

/// The four user-facing error categories.
#[derive(Debug)]
pub enum ServiceError {
    /// An opaque failure; nothing actionable is exposed to the caller.
    InternalServerError,
    /// A validation failure or a uniqueness conflict; the message is
    /// surfaced.
    BadRequest(String),
    /// The addressed row does not exist.
    NotFound(String),
    /// Declared for interface completeness; no handler produces it.
    Unauthorized,
}

/// The kind code attached to a database-reported failure; a uniqueness
/// violation is distinguished from every other kind.
#[derive(Debug)]
pub enum DbErrorKind {
    UniqueViolation,
    OtherViolation,
}

/// What a database-reported failure carries: an optional detail text
/// and a base message.
#[derive(Debug)]
pub struct DbErrorInfo {
    pub details: Option<String>,
    pub message: String,
}

/// A raw store failure, before it is mapped to the user-facing
/// taxonomy.
#[derive(Debug)]
pub enum DbError {
    /// The store rejected a statement, with a kind code and details.
    DatabaseError(DbErrorKind, DbErrorInfo),
    /// A lookup matched no row.
    RowNotFound,
    /// Any other failure, connection loss included.
    OtherFailure,
}

/// The message of the opaque internal-error response body.
pub open spec fn internal_error_message() -> Seq<char> {
    "Internal Server Error, Please try later"@
}

/// The message of the unauthorized response body.
pub open spec fn unauthorized_message() -> Seq<char> {
    "Unauthorized"@
}

impl ServiceError {
    /// The mapping from a raw store failure: a uniqueness violation
    /// surfaces its detail text (or, lacking one, its base message) as
    /// a bad request; every other failure is opaque.
    pub fn from_db(e: &DbError) -> (r: ServiceError)
        ensures
            match e {
                DbError::DatabaseError(kind, info) => {
                    if kind is UniqueViolation {
                        r matches ServiceError::BadRequest(m) && m@ == (match info.details {
                            Some(d) => d@,
                            None => info.message@,
                        })
                    } else {
                        r is InternalServerError
                    }
                },
                _ => r is InternalServerError,
            },
    {
        match e {
            DbError::DatabaseError(kind, info) => {
                match kind {
                    DbErrorKind::UniqueViolation => {
                        let message = match &info.details {
                            Some(d) => d.clone(),
                            None => info.message.clone(),
                        };
                        ServiceError::BadRequest(message)
                    },
                    DbErrorKind::OtherViolation => ServiceError::InternalServerError,
                }
            },
            _ => ServiceError::InternalServerError,
        }
    }

    /// The response for each error category: the status code, the
    /// mirrored body code, and the body message.
    pub fn error_response(&self) -> (r: HttpReply)
        ensures
            match self {
                ServiceError::InternalServerError => is_error_reply(r, 500, internal_error_message()),
                ServiceError::BadRequest(m) => is_error_reply(r, 400, m@),
                ServiceError::NotFound(m) => is_error_reply(r, 404, m@),
                ServiceError::Unauthorized => is_error_reply(r, 401, unauthorized_message()),
            },
    {
        match self {
            ServiceError::InternalServerError => HttpReply {
                status: 500,
                body: ResponseBody::ErrorInfo(ErrorResponseModel {
                    code: 500,
                    message: String::from_str("Internal Server Error, Please try later"),
                }),
            },
            ServiceError::BadRequest(m) => HttpReply {
                status: 400,
                body: ResponseBody::ErrorInfo(ErrorResponseModel { code: 400, message: m.clone() }),
            },
            ServiceError::NotFound(m) => HttpReply {
                status: 404,
                body: ResponseBody::ErrorInfo(ErrorResponseModel { code: 404, message: m.clone() }),
            },
            ServiceError::Unauthorized => HttpReply {
                status: 401,
                body: ResponseBody::ErrorInfo(ErrorResponseModel {
                    code: 401,
                    message: String::from_str("Unauthorized"),
                }),
            },
        }
    }

    /// The human-readable display form of each category.
    pub fn display_message(&self) -> (s: String)
        ensures
            match self {
                ServiceError::InternalServerError => s@ == "Internal Server Error"@,
                ServiceError::BadRequest(m) => s@ == "BadRequest: "@ + m@,
                ServiceError::NotFound(_) => s@ == "Not Found"@,
                ServiceError::Unauthorized => s@ == "Unauthorized"@,
            },
    {
        match self {
            ServiceError::InternalServerError => String::from_str("Internal Server Error"),
            ServiceError::BadRequest(m) => {
                let mut s = String::from_str("BadRequest: ");
                s.append(m.as_str());
                s
            },
            ServiceError::NotFound(_) => String::from_str("Not Found"),
            ServiceError::Unauthorized => String::from_str("Unauthorized"),
        }
    }
}

} // verus!
