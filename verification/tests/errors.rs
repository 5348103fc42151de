use judge_engine::errors::judge::JudgeError;
use judge_engine::errors::repository::DatabaseFailure;
use judge_engine::errors::repository::RepositoryError;
use judge_engine::errors::service::ServiceError;

#[test]
fn judge_errors_read_as_sentences() {
    assert_eq!(JudgeError::CompilationError("x".to_string()).message(), "Compilation error: x");
    assert_eq!(JudgeError::RuntimeError("x".to_string()).message(), "Runtime error: x");
    assert_eq!(JudgeError::TimeLimitExceeded.message(), "Time limit exceeded");
    assert_eq!(JudgeError::MemoryLimitExceeded.message(), "Memory limit exceeded");
    assert_eq!(JudgeError::WrongAnswer.message(), "Wrong answer");
    assert_eq!(JudgeError::SystemError("x".to_string()).message(), "System error: x");
    assert_eq!(
        JudgeError::UnsupportedLanguage("cobol".to_string()).message(),
        "Unsupported language: cobol"
    );
    assert_eq!(JudgeError::NoTestCases.message(), "No test cases found for this problem");
    assert_eq!(JudgeError::CodeSizeLimitExceeded.message(), "Code size limit exceeded");
    assert_eq!(JudgeError::SecurityViolation("x".to_string()).message(), "Security violation: x");
}

#[test]
fn repository_errors_read_as_sentences() {
    assert_eq!(RepositoryError::Database("x".to_string()).message(), "Database error: x");
    assert_eq!(RepositoryError::NotFound.message(), "Entity not found");
    assert_eq!(
        RepositoryError::UniqueViolation("x".to_string()).message(),
        "Unique constraint violation: x"
    );
    assert_eq!(
        RepositoryError::ForeignKeyViolation("x".to_string()).message(),
        "Foreign key constraint violation: x"
    );
    assert_eq!(RepositoryError::Connection("x".to_string()).message(), "Connection error: x");
    assert_eq!(RepositoryError::Transaction("x".to_string()).message(), "Transaction error: x");
    assert_eq!(
        RepositoryError::Serialization("x".to_string()).message(),
        "Serialization error: x"
    );
}

#[test]
fn service_errors_read_as_sentences() {
    assert_eq!(
        ServiceError::Repository(RepositoryError::NotFound).message(),
        "Repository error: Entity not found"
    );
    assert_eq!(ServiceError::ValidationError("x".to_string()).message(), "Validation error: x");
    assert_eq!(ServiceError::NotFoundError("x".to_string()).message(), "Not found: x");
    assert_eq!(ServiceError::ConflictError("x".to_string()).message(), "Conflict: x");
    assert_eq!(ServiceError::UnauthorizedError("x".to_string()).message(), "Unauthorized: x");
    assert_eq!(ServiceError::ForbiddenError("x".to_string()).message(), "Forbidden: x");
    assert_eq!(ServiceError::InternalError("x".to_string()).message(), "Internal error: x");
    assert_eq!(
        ServiceError::ExternalServiceError("x".to_string()).message(),
        "External service error: x"
    );
    assert_eq!(ServiceError::RateLimitError.message(), "Rate limit exceeded");
    assert_eq!(ServiceError::TimeoutError.message(), "Execution timeout");
}

#[test]
fn database_failures_are_told_apart_by_their_code() {
    let failure = |code: Option<&str>| DatabaseFailure::Database {
        code: code.map(|c| c.to_string()),
        message: "duplicate key".to_string(),
    };
    assert!(matches!(
        RepositoryError::from(failure(Some("23505"))),
        RepositoryError::UniqueViolation(m) if m == "duplicate key"
    ));
    assert!(matches!(
        RepositoryError::from(failure(Some("23503"))),
        RepositoryError::ForeignKeyViolation(m) if m == "duplicate key"
    ));
    assert!(matches!(
        RepositoryError::from(failure(Some("42601"))),
        RepositoryError::Database(m) if m == "duplicate key"
    ));
    assert!(matches!(
        RepositoryError::from(failure(None)),
        RepositoryError::Database(m) if m == "duplicate key"
    ));
    assert!(matches!(
        RepositoryError::from(failure(Some(""))),
        RepositoryError::Database(m) if m == "duplicate key"
    ));
}

#[test]
fn other_database_failures_keep_their_text() {
    assert!(matches!(RepositoryError::from(DatabaseFailure::RowNotFound), RepositoryError::NotFound));
    assert!(matches!(
        RepositoryError::from(DatabaseFailure::Io("reset".to_string())),
        RepositoryError::Connection(m) if m == "reset"
    ));
    assert!(matches!(
        RepositoryError::from(DatabaseFailure::Tls("handshake".to_string())),
        RepositoryError::Connection(m) if m == "handshake"
    ));
    assert!(matches!(
        RepositoryError::from(DatabaseFailure::Other("pool closed".to_string())),
        RepositoryError::Database(m) if m == "pool closed"
    ));
}
