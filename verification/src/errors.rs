//! Error taxonomy of the engine and the HTTP-shaped error carrier the
//! serving layer turns into responses.

use vstd::prelude::*;
use vstd::string::StringExecFns;

use crate::strutil::dec_str;

verus! {

/// The JSON body an error response carries.
#[derive(Debug, Clone, PartialEq)]
pub struct ErrorResponse {
    pub status: String,
    pub message: String,
}

/// Every failure the engine reports to a caller.
#[derive(Debug, Clone, Copy, PartialEq, Eq, Structural)]
pub enum ErrorMessage {
    EmptyPassword,
    ExceededMaxPasswordLength(usize),
    InvalidHashFormat,
    HashingError,
    InvalidToken,
    ServerError,
    WrongCredentials,
    EmailExist,
    UserNoLongerExist,
    TokenNotProvided,
    PermissionDenied,
    UserNotAuthenticated,
    NotFound,
    CourseNotFound,
    CourseAlreadyExists,
    ProviderAuthError,
    ProviderUnavailable,
}

/// The user-facing text of each error.
pub open spec fn spec_message(e: ErrorMessage) -> Seq<char> {
    match e {
        ErrorMessage::ServerError => "Server Error. Please try again later"@,
        ErrorMessage::WrongCredentials => "Email or password is wrong"@,
        ErrorMessage::EmailExist => "A user with this email already exists"@,
        ErrorMessage::UserNoLongerExist => "User belonging to this token no longer exists"@,
        ErrorMessage::EmptyPassword => "Password cannot be empty"@,
        ErrorMessage::HashingError => "Error while hashing password"@,
        ErrorMessage::InvalidHashFormat => "Invalid password hash format"@,
        ErrorMessage::ExceededMaxPasswordLength(n) => "Password must not be more than "@ + dec_str(
            n as int,
        ) + " characters"@,
        ErrorMessage::InvalidToken => "Authentication token is invalid or expired"@,
        ErrorMessage::TokenNotProvided => "You are not logged in, please provide a token"@,
        ErrorMessage::PermissionDenied => "You are not allowed to perform this action"@,
        ErrorMessage::UserNotAuthenticated => "Authentication required. Please log in."@,
        ErrorMessage::NotFound => "Resource not found"@,
        ErrorMessage::CourseNotFound => "Course not found"@,
        ErrorMessage::CourseAlreadyExists => "A course with this title already exists"@,
        ErrorMessage::ProviderAuthError => "Payment provider authentication failed"@,
        ErrorMessage::ProviderUnavailable => "Payment provider is unavailable"@,
    }
}

impl ErrorMessage {
    /// Renders the error's user-facing text.
    pub fn to_str(&self) -> (r: String)
        ensures
            r@ == spec_message(*self),
    {
        match self {
            ErrorMessage::ServerError => "Server Error. Please try again later".to_owned(),
            ErrorMessage::WrongCredentials => "Email or password is wrong".to_owned(),
            ErrorMessage::EmailExist => "A user with this email already exists".to_owned(),
            ErrorMessage::UserNoLongerExist => {
                "User belonging to this token no longer exists".to_owned()
            },
            ErrorMessage::EmptyPassword => "Password cannot be empty".to_owned(),
            ErrorMessage::HashingError => "Error while hashing password".to_owned(),
            ErrorMessage::InvalidHashFormat => "Invalid password hash format".to_owned(),
            ErrorMessage::ExceededMaxPasswordLength(n) => {
                let mut r = "Password must not be more than ".to_owned();
                let digits = crate::strutil::u64_to_string(*n as u64);
                r.append(digits.as_str());
                r.append(" characters");
                proof {
                    assert(r@ =~= spec_message(*self));
                }
                r
            },
            ErrorMessage::InvalidToken => {
                "Authentication token is invalid or expired".to_owned()
            },
            ErrorMessage::TokenNotProvided => {
                "You are not logged in, please provide a token".to_owned()
            },
            ErrorMessage::PermissionDenied => {
                "You are not allowed to perform this action".to_owned()
            },
            ErrorMessage::UserNotAuthenticated => {
                "Authentication required. Please log in.".to_owned()
            },
            ErrorMessage::NotFound => "Resource not found".to_owned(),
            ErrorMessage::CourseNotFound => "Course not found".to_owned(),
            ErrorMessage::CourseAlreadyExists => {
                "A course with this title already exists".to_owned()
            },
            ErrorMessage::ProviderAuthError => {
                "Payment provider authentication failed".to_owned()
            },
            ErrorMessage::ProviderUnavailable => "Payment provider is unavailable".to_owned(),
        }
    }
}

/// An error with the HTTP status the serving layer should answer with.
#[derive(Debug, Clone, PartialEq)]
pub struct HttpError {
    pub message: String,
    pub status: u16,
}

impl HttpError {
    /// Pairs a message with an explicit status code.
    pub fn new(message: String, status: u16) -> (r: HttpError)
        ensures
            r.message == message,
            r.status == status,
    {
        HttpError { message, status }
    }

    /// An internal server failure.
    pub fn server_error(message: String) -> (r: HttpError)
        ensures
            r.message == message,
            r.status == 500,
    {
        HttpError { message, status: 500 }
    }

    /// A request the engine rejects as malformed or unacceptable.
    pub fn bad_request(message: String) -> (r: HttpError)
        ensures
            r.message == message,
            r.status == 400,
    {
        HttpError { message, status: 400 }
    }

    /// A write refused because a uniqueness rule already holds.
    pub fn unique_constraint_violation(message: String) -> (r: HttpError)
        ensures
            r.message == message,
            r.status == 409,
    {
        HttpError { message, status: 409 }
    }

    /// A request without acceptable credentials.
    pub fn unauthorized(message: String) -> (r: HttpError)
        ensures
            r.message == message,
            r.status == 401,
    {
        HttpError { message, status: 401 }
    }

    /// A request naming something that does not exist.
    pub fn not_found(message: String) -> (r: HttpError)
        ensures
            r.message == message,
            r.status == 404,
    {
        HttpError { message, status: 404 }
    }

    /// The body of the response this error should produce.
    pub fn to_error_response(&self) -> (r: ErrorResponse)
        ensures
            r.status@ == "fail"@,
            r.message == self.message,
    {
        ErrorResponse { status: "fail".to_owned(), message: self.message.clone() }
    }
}

} // verus!
