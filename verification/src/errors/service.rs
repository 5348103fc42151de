//! Failures of a service.

use crate::errors::repository::RepositoryError;
use crate::text::joined;
use vstd::prelude::*;

verus! {

/// A failure of a service.
#[derive(Debug, Clone)]
pub enum ServiceError {
    Repository(RepositoryError),
    ValidationError(String),
    NotFoundError(String),
    ConflictError(String),
    UnauthorizedError(String),
    ForbiddenError(String),
    InternalError(String),
    ExternalServiceError(String),
    RateLimitError,
    TimeoutError,
}

impl ServiceError {
    /// How the failure reads.
    pub open spec fn text(self) -> Seq<char> {
        match self {
            ServiceError::Repository(error) => "Repository error: "@ + error.text(),
            ServiceError::ValidationError(detail) => "Validation error: "@ + detail@,
            ServiceError::NotFoundError(detail) => "Not found: "@ + detail@,
            ServiceError::ConflictError(detail) => "Conflict: "@ + detail@,
            ServiceError::UnauthorizedError(detail) => "Unauthorized: "@ + detail@,
            ServiceError::ForbiddenError(detail) => "Forbidden: "@ + detail@,
            ServiceError::InternalError(detail) => "Internal error: "@ + detail@,
            ServiceError::ExternalServiceError(detail) => "External service error: "@ + detail@,
            ServiceError::RateLimitError => "Rate limit exceeded"@,
            ServiceError::TimeoutError => "Execution timeout"@,
        }
    }

    /// How the failure reads.
    pub fn message(&self) -> (message: String)
        ensures
            message@ == self.text(),
    {
        match self {
            ServiceError::Repository(error) => {
                let inner = error.message();
                joined("Repository error: ", inner.as_str())
            },
            ServiceError::ValidationError(detail) => joined("Validation error: ", detail.as_str()),
            ServiceError::NotFoundError(detail) => joined("Not found: ", detail.as_str()),
            ServiceError::ConflictError(detail) => joined("Conflict: ", detail.as_str()),
            ServiceError::UnauthorizedError(detail) => joined("Unauthorized: ", detail.as_str()),
            ServiceError::ForbiddenError(detail) => joined("Forbidden: ", detail.as_str()),
            ServiceError::InternalError(detail) => joined("Internal error: ", detail.as_str()),
            ServiceError::ExternalServiceError(detail) => joined(
                "External service error: ",
                detail.as_str(),
            ),
            ServiceError::RateLimitError => String::from_str("Rate limit exceeded"),
            ServiceError::TimeoutError => String::from_str("Execution timeout"),
        }
    }
}

} // verus!
