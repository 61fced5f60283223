use vstd::prelude::*;
use vstd::string::StringExecFns;

verus! {

/// The failure taxonomy shared by the whole crate. Every operation that can
/// fail reports one of these kinds together with a human-readable message;
/// the kind alone decides how a caller maps the failure onto a transport
/// status, so internals of the failed check are never leaked.
#[derive(Debug)]
pub enum AppError {
    DatabaseError(String),
    NotFound(String),
    ValidationError(String),
    AuthenticationError(String),
    InternalServerError(String),
}

impl AppError {
    /// The stable machine-readable code of this error kind.
    pub open spec fn spec_code(&self) -> Seq<char> {
        match self {
            AppError::DatabaseError(_) => "DATABASE_ERROR"@,
            AppError::NotFound(_) => "NOT_FOUND"@,
            AppError::ValidationError(_) => "VALIDATION_ERROR"@,
            AppError::AuthenticationError(_) => "AUTHENTICATION_ERROR"@,
            AppError::InternalServerError(_) => "INTERNAL_ERROR"@,
        }
    }

    /// The HTTP status an error of this kind maps to.
    pub open spec fn spec_status(&self) -> u16 {
        match self {
            AppError::DatabaseError(_) => 500,
            AppError::NotFound(_) => 404,
            AppError::ValidationError(_) => 400,
            AppError::AuthenticationError(_) => 401,
            AppError::InternalServerError(_) => 500,
        }
    }

    /// The message carried by this error.
    pub open spec fn spec_message(&self) -> Seq<char> {
        match self {
            AppError::DatabaseError(m) => m@,
            AppError::NotFound(m) => m@,
            AppError::ValidationError(m) => m@,
            AppError::AuthenticationError(m) => m@,
            AppError::InternalServerError(m) => m@,
        }
    }

    /// The prose prefix used when this error is described to a person.
    pub open spec fn spec_prefix(&self) -> Seq<char> {
        match self {
            AppError::DatabaseError(_) => "Database error: "@,
            AppError::NotFound(_) => "Not found: "@,
            AppError::ValidationError(_) => "Validation error: "@,
            AppError::AuthenticationError(_) => "Authentication error: "@,
            AppError::InternalServerError(_) => "Internal server error: "@,
        }
    }

    pub fn error_code(&self) -> (r: String)
        ensures
            r@ == self.spec_code(),
    {
        match self {
            AppError::DatabaseError(_) => "DATABASE_ERROR".to_owned(),
            AppError::NotFound(_) => "NOT_FOUND".to_owned(),
            AppError::ValidationError(_) => "VALIDATION_ERROR".to_owned(),
            AppError::AuthenticationError(_) => "AUTHENTICATION_ERROR".to_owned(),
            AppError::InternalServerError(_) => "INTERNAL_ERROR".to_owned(),
        }
    }

    pub fn status_code(&self) -> (r: u16)
        ensures
            r == self.spec_status(),
    {
        match self {
            AppError::DatabaseError(_) => 500,
            AppError::NotFound(_) => 404,
            AppError::ValidationError(_) => 400,
            AppError::AuthenticationError(_) => 401,
            AppError::InternalServerError(_) => 500,
        }
    }

    pub fn message(&self) -> (r: String)
        ensures
            r@ == self.spec_message(),
    {
        match self {
            AppError::DatabaseError(m) => m.clone(),
            AppError::NotFound(m) => m.clone(),
            AppError::ValidationError(m) => m.clone(),
            AppError::AuthenticationError(m) => m.clone(),
            AppError::InternalServerError(m) => m.clone(),
        }
    }

    /// A one-line description: the kind's prose prefix followed by the message.
    pub fn describe(&self) -> (r: String)
        ensures
            r@ == self.spec_prefix() + self.spec_message(),
    {
        let prefix = match self {
            AppError::DatabaseError(_) => "Database error: ".to_owned(),
            AppError::NotFound(_) => "Not found: ".to_owned(),
            AppError::ValidationError(_) => "Validation error: ".to_owned(),
            AppError::AuthenticationError(_) => "Authentication error: ".to_owned(),
            AppError::InternalServerError(_) => "Internal server error: ".to_owned(),
        };
        let message = self.message();
        prefix.concat(message.as_str())
    }
}

} // verus!
