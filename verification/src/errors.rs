//! The closed set of failures and what a client sees of each.

use vstd::prelude::*;
use vstd::string::StringExecFns;

verus! {

/// Every way a request or the startup sequence can fail.
#[derive(Debug, Clone, Copy, PartialEq, Eq, Structural)]
pub enum CustomError {
    /// The client sent a payload with an empty field.
    BadRequest,
    /// No row has the identifier that was asked for.
    UserNotFound,
    /// Anything unexpected while serving a request.
    InternalServerError,
    /// The database could not be reached at startup.
    DatabaseError,
    /// The schema could not be brought up to date at startup.
    MigrationError,
}

/// The body of every error reply: `{"error": "<message>"}`.
#[derive(Debug, PartialEq, Eq)]
pub struct ErrorBody {
    pub error: String,
}

/// Status code and body of an error reply.
#[derive(Debug, PartialEq, Eq)]
pub struct ErrorResponse {
    pub status: u16,
    pub body: ErrorBody,
}

impl CustomError {
    /// The HTTP status that stands for this failure.
    pub open spec fn spec_status(self) -> u16 {
        match self {
            CustomError::BadRequest => 400u16,
            CustomError::UserNotFound => 404u16,
            CustomError::InternalServerError => 500u16,
            CustomError::DatabaseError => 500u16,
            CustomError::MigrationError => 500u16,
        }
    }

    /// The fixed text that a client reads.
    pub open spec fn spec_message(self) -> Seq<char> {
        match self {
            CustomError::BadRequest => "Bad Request"@,
            CustomError::UserNotFound => "User Not Found"@,
            CustomError::InternalServerError => "Internal Server Error"@,
            CustomError::DatabaseError => "Could not connect to database"@,
            CustomError::MigrationError => "Could not migrate database"@,
        }
    }

    /// The HTTP status of the reply for this failure.
    #[verifier::when_used_as_spec(spec_status)]
    pub fn status(self) -> (code: u16)
        ensures
            code == self.spec_status(),
            code == 400 || code == 404 || code == 500,
    {
        match self {
            CustomError::BadRequest => 400u16,
            CustomError::UserNotFound => 404u16,
            CustomError::InternalServerError => 500u16,
            CustomError::DatabaseError => 500u16,
            CustomError::MigrationError => 500u16,
        }
    }

    /// The message of the reply for this failure.
    pub fn message(self) -> (text: &'static str)
        ensures
            text@ == self.spec_message(),
    {
        match self {
            CustomError::BadRequest => "Bad Request",
            CustomError::UserNotFound => "User Not Found",
            CustomError::InternalServerError => "Internal Server Error",
            CustomError::DatabaseError => "Could not connect to database",
            CustomError::MigrationError => "Could not migrate database",
        }
    }

    /// The reply for this failure: its status, and its message in the
    /// envelope. Total: every variant has exactly one reply.
    pub fn into_response(self) -> (response: ErrorResponse)
        ensures
            response.status == self.spec_status(),
            response.body.error@ == self.spec_message(),
    {
        let status: u16 = self.status();
        let error = String::from_str(self.message());
        ErrorResponse { status, body: ErrorBody { error } }
    }
}

} // verus!
