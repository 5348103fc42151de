//! How a failure is answered: with which status, which message and which
//! code that clients can act on.

use crate::errors::judge::JudgeError;
use crate::errors::repository::RepositoryError;
use crate::errors::service::ServiceError;
use crate::text::joined;
use vstd::prelude::*;

verus! {

/// A failure to sign in or to prove who one is.
#[derive(Debug, Clone)]
pub enum AuthError {
    InvalidCredentials,
    TokenExpired,
    InvalidToken(String),
    MissingToken,
    JwtError(String),
}

/// Any failure of the platform. Failures of the runtime and of the database
/// driver are held by their text.
#[derive(Debug, Clone)]
pub enum Error {
    InternalError,
    InitializationError(String),
    Database(String),
    Repository(RepositoryError),
    Setup(String),
    Service(ServiceError),
    Auth(AuthError),
    Judge(JudgeError),
    Validation(String),
    NotFound(String),
    BadRequest(String),
}

/// The answer to a failure: the status of the response, the message and the
/// code that clients can act on.
#[derive(Debug, Clone)]
pub struct ErrorAnswer {
    pub status: u16,
    pub message: String,
    pub code: String,
}

/// An answer with its texts as sequences of characters.
pub struct ErrorAnswerView {
    pub status: u16,
    pub message: Seq<char>,
    pub code: Seq<char>,
}

impl View for ErrorAnswer {
    type V = ErrorAnswerView;

    open spec fn view(&self) -> ErrorAnswerView {
        ErrorAnswerView { status: self.status, message: self.message@, code: self.code@ }
    }
}

pub const BAD_REQUEST: u16 = 400;

pub const UNAUTHORIZED: u16 = 401;

pub const FORBIDDEN: u16 = 403;

pub const NOT_FOUND: u16 = 404;

pub const REQUEST_TIMEOUT: u16 = 408;

pub const CONFLICT: u16 = 409;

pub const TOO_MANY_REQUESTS: u16 = 429;

pub const INTERNAL_SERVER_ERROR: u16 = 500;

/// An answer made of its three parts.
pub open spec fn answer(status: u16, message: Seq<char>, code: Seq<char>) -> ErrorAnswerView {
    ErrorAnswerView { status, message, code }
}

/// The answer to a failure of a store.
pub open spec fn repository_answer(error: RepositoryError) -> ErrorAnswerView {
    match error {
        RepositoryError::NotFound => answer(NOT_FOUND, "Resource not found"@, "NOT_FOUND"@),
        RepositoryError::UniqueViolation(detail) => answer(CONFLICT, detail@, "UNIQUE_VIOLATION"@),
        RepositoryError::ForeignKeyViolation(detail) => answer(
            BAD_REQUEST,
            detail@,
            "FOREIGN_KEY_VIOLATION"@,
        ),
        _ => answer(INTERNAL_SERVER_ERROR, "Repository error occurred"@, "REPOSITORY_ERROR"@),
    }
}

/// The answer to a failure of a service.
pub open spec fn service_answer(error: ServiceError) -> ErrorAnswerView {
    match error {
        ServiceError::ValidationError(detail) => answer(BAD_REQUEST, detail@, "VALIDATION_ERROR"@),
        ServiceError::NotFoundError(detail) => answer(NOT_FOUND, detail@, "NOT_FOUND"@),
        ServiceError::ConflictError(detail) => answer(CONFLICT, detail@, "CONFLICT"@),
        ServiceError::UnauthorizedError(detail) => answer(UNAUTHORIZED, detail@, "UNAUTHORIZED"@),
        ServiceError::ForbiddenError(detail) => answer(FORBIDDEN, detail@, "FORBIDDEN"@),
        ServiceError::RateLimitError => answer(
            TOO_MANY_REQUESTS,
            "Rate limit exceeded"@,
            "RATE_LIMIT_EXCEEDED"@,
        ),
        ServiceError::TimeoutError => answer(REQUEST_TIMEOUT, "Request timeout"@, "TIMEOUT"@),
        _ => answer(INTERNAL_SERVER_ERROR, "Service error occurred"@, "SERVICE_ERROR"@),
    }
}

/// The answer to a failure to sign in.
pub open spec fn auth_answer(error: AuthError) -> ErrorAnswerView {
    match error {
        AuthError::InvalidCredentials => answer(
            UNAUTHORIZED,
            "Invalid credentials"@,
            "INVALID_CREDENTIALS"@,
        ),
        AuthError::TokenExpired => answer(UNAUTHORIZED, "Token has expired"@, "TOKEN_EXPIRED"@),
        AuthError::InvalidToken(_) => answer(UNAUTHORIZED, "Invalid token"@, "INVALID_TOKEN"@),
        AuthError::MissingToken => answer(
            UNAUTHORIZED,
            "Authentication token required"@,
            "MISSING_TOKEN"@,
        ),
        AuthError::JwtError(_) => answer(UNAUTHORIZED, "Authentication error"@, "JWT_ERROR"@),
    }
}

/// The answer to a failure of the judging engine.
pub open spec fn judge_answer(error: JudgeError) -> ErrorAnswerView {
    match error {
        JudgeError::CompilationError(detail) => answer(
            BAD_REQUEST,
            "Compilation failed: "@ + detail@,
            "COMPILATION_ERROR"@,
        ),
        JudgeError::RuntimeError(detail) => answer(
            BAD_REQUEST,
            "Runtime error: "@ + detail@,
            "RUNTIME_ERROR"@,
        ),
        JudgeError::TimeLimitExceeded => answer(
            BAD_REQUEST,
            "Time limit exceeded"@,
            "TIME_LIMIT_EXCEEDED"@,
        ),
        JudgeError::MemoryLimitExceeded => answer(
            BAD_REQUEST,
            "Memory limit exceeded"@,
            "MEMORY_LIMIT_EXCEEDED"@,
        ),
        JudgeError::WrongAnswer => answer(BAD_REQUEST, "Wrong answer"@, "WRONG_ANSWER"@),
        JudgeError::UnsupportedLanguage(language) => answer(
            BAD_REQUEST,
            "Unsupported language: "@ + language@,
            "UNSUPPORTED_LANGUAGE"@,
        ),
        _ => answer(BAD_REQUEST, "Judge error occurred"@, "JUDGE_ERROR"@),
    }
}

/// The answer to any failure of the platform.
pub open spec fn answer_of(error: Error) -> ErrorAnswerView {
    match error {
        Error::InternalError => answer(
            INTERNAL_SERVER_ERROR,
            "Internal server error"@,
            "INTERNAL_ERROR"@,
        ),
        Error::InitializationError(detail) => answer(
            INTERNAL_SERVER_ERROR,
            "Failed to initialize: "@ + detail@,
            "INITIALIZATION_ERROR"@,
        ),
        Error::Database(_) => answer(
            INTERNAL_SERVER_ERROR,
            "Failed to establish database connection"@,
            "DATABASE_ERROR"@,
        ),
        Error::Setup(detail) => answer(INTERNAL_SERVER_ERROR, detail@, "SETUP_ERROR"@),
        Error::Repository(inner) => repository_answer(inner),
        Error::Service(inner) => service_answer(inner),
        Error::Auth(inner) => auth_answer(inner),
        Error::Judge(inner) => judge_answer(inner),
        Error::Validation(detail) => answer(BAD_REQUEST, detail@, "VALIDATION_ERROR"@),
        Error::NotFound(detail) => answer(NOT_FOUND, detail@, "NOT_FOUND"@),
        Error::BadRequest(detail) => answer(BAD_REQUEST, detail@, "BAD_REQUEST"@),
    }
}

/// An answer made of its three parts.
fn answer_with(status: u16, message: String, code: &str) -> (made: ErrorAnswer)
    ensures
        made@ == answer(status, message@, code@),
{
    ErrorAnswer { status, message, code: String::from_str(code) }
}

/// An answer with a fixed message.
fn plain_answer(status: u16, message: &str, code: &str) -> (made: ErrorAnswer)
    ensures
        made@ == answer(status, message@, code@),
{
    ErrorAnswer { status, message: String::from_str(message), code: String::from_str(code) }
}

impl RepositoryError {
    /// The answer to a failure of a store.
    pub fn answer(&self) -> (made: ErrorAnswer)
        ensures
            made@ == repository_answer(*self),
    {
        match self {
            RepositoryError::NotFound => plain_answer(NOT_FOUND, "Resource not found", "NOT_FOUND"),
            RepositoryError::UniqueViolation(detail) => answer_with(
                CONFLICT,
                detail.clone(),
                "UNIQUE_VIOLATION",
            ),
            RepositoryError::ForeignKeyViolation(detail) => answer_with(
                BAD_REQUEST,
                detail.clone(),
                "FOREIGN_KEY_VIOLATION",
            ),
            _ => plain_answer(
                INTERNAL_SERVER_ERROR,
                "Repository error occurred",
                "REPOSITORY_ERROR",
            ),
        }
    }
}

impl ServiceError {
    /// The answer to a failure of a service.
    pub fn answer(&self) -> (made: ErrorAnswer)
        ensures
            made@ == service_answer(*self),
    {
        match self {
            ServiceError::ValidationError(detail) => answer_with(
                BAD_REQUEST,
                detail.clone(),
                "VALIDATION_ERROR",
            ),
            ServiceError::NotFoundError(detail) => answer_with(
                NOT_FOUND,
                detail.clone(),
                "NOT_FOUND",
            ),
            ServiceError::ConflictError(detail) => answer_with(CONFLICT, detail.clone(), "CONFLICT"),
            ServiceError::UnauthorizedError(detail) => answer_with(
                UNAUTHORIZED,
                detail.clone(),
                "UNAUTHORIZED",
            ),
            ServiceError::ForbiddenError(detail) => answer_with(
                FORBIDDEN,
                detail.clone(),
                "FORBIDDEN",
            ),
            ServiceError::RateLimitError => plain_answer(
                TOO_MANY_REQUESTS,
                "Rate limit exceeded",
                "RATE_LIMIT_EXCEEDED",
            ),
            ServiceError::TimeoutError => plain_answer(
                REQUEST_TIMEOUT,
                "Request timeout",
                "TIMEOUT",
            ),
            _ => plain_answer(INTERNAL_SERVER_ERROR, "Service error occurred", "SERVICE_ERROR"),
        }
    }
}

impl AuthError {
    /// The answer to a failure to sign in.
    pub fn answer(&self) -> (made: ErrorAnswer)
        ensures
            made@ == auth_answer(*self),
    {
        match self {
            AuthError::InvalidCredentials => plain_answer(
                UNAUTHORIZED,
                "Invalid credentials",
                "INVALID_CREDENTIALS",
            ),
            AuthError::TokenExpired => plain_answer(
                UNAUTHORIZED,
                "Token has expired",
                "TOKEN_EXPIRED",
            ),
            AuthError::InvalidToken(_) => plain_answer(
                UNAUTHORIZED,
                "Invalid token",
                "INVALID_TOKEN",
            ),
            AuthError::MissingToken => plain_answer(
                UNAUTHORIZED,
                "Authentication token required",
                "MISSING_TOKEN",
            ),
            AuthError::JwtError(_) => plain_answer(
                UNAUTHORIZED,
                "Authentication error",
                "JWT_ERROR",
            ),
        }
    }
}

impl JudgeError {
    /// The answer to a failure of the judging engine.
    pub fn answer(&self) -> (made: ErrorAnswer)
        ensures
            made@ == judge_answer(*self),
    {
        match self {
            JudgeError::CompilationError(detail) => answer_with(
                BAD_REQUEST,
                joined("Compilation failed: ", detail.as_str()),
                "COMPILATION_ERROR",
            ),
            JudgeError::RuntimeError(detail) => answer_with(
                BAD_REQUEST,
                joined("Runtime error: ", detail.as_str()),
                "RUNTIME_ERROR",
            ),
            JudgeError::TimeLimitExceeded => plain_answer(
                BAD_REQUEST,
                "Time limit exceeded",
                "TIME_LIMIT_EXCEEDED",
            ),
            JudgeError::MemoryLimitExceeded => plain_answer(
                BAD_REQUEST,
                "Memory limit exceeded",
                "MEMORY_LIMIT_EXCEEDED",
            ),
            JudgeError::WrongAnswer => plain_answer(BAD_REQUEST, "Wrong answer", "WRONG_ANSWER"),
            JudgeError::UnsupportedLanguage(language) => answer_with(
                BAD_REQUEST,
                joined("Unsupported language: ", language.as_str()),
                "UNSUPPORTED_LANGUAGE",
            ),
            _ => plain_answer(BAD_REQUEST, "Judge error occurred", "JUDGE_ERROR"),
        }
    }
}

impl Error {
    /// The answer to a failure: its status, its message and its code.
    pub fn answer(&self) -> (made: ErrorAnswer)
        ensures
            made@ == answer_of(*self),
    {
        match self {
            Error::InternalError => plain_answer(
                INTERNAL_SERVER_ERROR,
                "Internal server error",
                "INTERNAL_ERROR",
            ),
            Error::InitializationError(detail) => answer_with(
                INTERNAL_SERVER_ERROR,
                joined("Failed to initialize: ", detail.as_str()),
                "INITIALIZATION_ERROR",
            ),
            Error::Database(_) => plain_answer(
                INTERNAL_SERVER_ERROR,
                "Failed to establish database connection",
                "DATABASE_ERROR",
            ),
            Error::Setup(detail) => answer_with(
                INTERNAL_SERVER_ERROR,
                detail.clone(),
                "SETUP_ERROR",
            ),
            Error::Repository(inner) => inner.answer(),
            Error::Service(inner) => inner.answer(),
            Error::Auth(inner) => inner.answer(),
            Error::Judge(inner) => inner.answer(),
            Error::Validation(detail) => answer_with(
                BAD_REQUEST,
                detail.clone(),
                "VALIDATION_ERROR",
            ),
            Error::NotFound(detail) => answer_with(NOT_FOUND, detail.clone(), "NOT_FOUND"),
            Error::BadRequest(detail) => answer_with(BAD_REQUEST, detail.clone(), "BAD_REQUEST"),
        }
    }
}

} // verus!
