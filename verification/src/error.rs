//! The failures of the badge service and the responses they become.
use crate::web::{HttpReply, HttpReplyView};
use vstd::prelude::*;

verus! {

/// A failure of the badge service. The variants that wrap a failure of a
/// collaborator keep its description, for the log only.
#[derive(Debug)]
pub enum BadgeError {
    InvalidParameter,
    NoRunAvailable,
    Unauthorised,
    DatabaseError { cause: String },
    MailboxError { cause: String },
    UnexpectedError { cause: String },
}

impl BadgeError {
    /// The HTTP status code a failure is answered with.
    pub open spec fn status_code(self) -> u16 {
        match self {
            BadgeError::Unauthorised => 401,
            BadgeError::NoRunAvailable => 404,
            BadgeError::InvalidParameter => 400,
            BadgeError::DatabaseError { .. } => 500,
            BadgeError::MailboxError { .. } => 500,
            BadgeError::UnexpectedError { .. } => 500,
        }
    }

    /// The body a failure is answered with: a fixed JSON string per variant,
    /// which never holds the cause.
    pub open spec fn public_body(self) -> Seq<char> {
        match self {
            BadgeError::Unauthorised => "\"Unauthorised\""@,
            BadgeError::NoRunAvailable => "\"Not run found\""@,
            BadgeError::InvalidParameter => "\"Invalid parameter\""@,
            BadgeError::DatabaseError { .. } => "\"Database error\""@,
            BadgeError::MailboxError { .. } => "\"Communication error\""@,
            BadgeError::UnexpectedError { .. } => "\"Unexpected error\""@,
        }
    }

    /// The short description of a failure, for logs.
    pub open spec fn description(self) -> Seq<char> {
        match self {
            BadgeError::InvalidParameter => "Invalid parameter"@,
            BadgeError::NoRunAvailable => "No run available"@,
            BadgeError::Unauthorised => "Unauthorised"@,
            BadgeError::DatabaseError { .. } => "Database Error"@,
            BadgeError::MailboxError { .. } => "Mailbox actix Error"@,
            BadgeError::UnexpectedError { .. } => "Unexpected error"@,
        }
    }

    /// The response sent for this failure.
    pub fn error_response(&self) -> (r: HttpReply)
        ensures
            r@ == (HttpReplyView {
                status: self.status_code(),
                content_type: "application/json"@,
                body: self.public_body(),
            }),
    {
        let (status, body): (u16, &str) = match self {
            BadgeError::Unauthorised => (401, "\"Unauthorised\""),
            BadgeError::NoRunAvailable => (404, "\"Not run found\""),
            BadgeError::InvalidParameter => (400, "\"Invalid parameter\""),
            BadgeError::DatabaseError { .. } => (500, "\"Database error\""),
            BadgeError::MailboxError { .. } => (500, "\"Communication error\""),
            BadgeError::UnexpectedError { .. } => (500, "\"Unexpected error\""),
        };
        HttpReply {
            status,
            content_type: "application/json".to_owned(),
            body: body.to_owned(),
        }
    }

    /// The short description of this failure.
    pub fn describe(&self) -> (r: String)
        ensures
            r@ == self.description(),
    {
        match self {
            BadgeError::InvalidParameter => "Invalid parameter".to_owned(),
            BadgeError::NoRunAvailable => "No run available".to_owned(),
            BadgeError::Unauthorised => "Unauthorised".to_owned(),
            BadgeError::DatabaseError { .. } => "Database Error".to_owned(),
            BadgeError::MailboxError { .. } => "Mailbox actix Error".to_owned(),
            BadgeError::UnexpectedError { .. } => "Unexpected error".to_owned(),
        }
    }
}

} // verus!
