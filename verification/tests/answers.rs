use judge_engine::common::pagination::page_window;
use judge_engine::common::pagination::window_fits;
use judge_engine::common::pagination::PageWindow;
use judge_engine::errors::judge::JudgeError;
use judge_engine::errors::repository::RepositoryError;
use judge_engine::errors::response::AuthError;
use judge_engine::errors::response::Error;
use judge_engine::errors::service::ServiceError;
use judge_engine::models::judge::language_config;
use judge_engine::models::language::Language;
use judge_engine::models::submission::SubmissionStatus;

fn answer(error: Error) -> (u16, String, String) {
    let made = error.answer();
    (made.status, made.message, made.code)
}

fn expect(error: Error, status: u16, message: &str, code: &str) {
    assert_eq!(answer(error), (status, message.to_string(), code.to_string()));
}

#[test]
fn general_failures_are_answered() {
    expect(Error::InternalError, 500, "Internal server error", "INTERNAL_ERROR");
    expect(
        Error::InitializationError("no runtime".to_string()),
        500,
        "Failed to initialize: no runtime",
        "INITIALIZATION_ERROR",
    );
    expect(
        Error::Database("secret detail".to_string()),
        500,
        "Failed to establish database connection",
        "DATABASE_ERROR",
    );
    expect(Error::Setup("bad config".to_string()), 500, "bad config", "SETUP_ERROR");
    expect(Error::Validation("bad".to_string()), 400, "bad", "VALIDATION_ERROR");
    expect(Error::NotFound("gone".to_string()), 404, "gone", "NOT_FOUND");
    expect(Error::BadRequest("what".to_string()), 400, "what", "BAD_REQUEST");
}

#[test]
fn failures_of_a_store_are_answered() {
    expect(Error::Repository(RepositoryError::NotFound), 404, "Resource not found", "NOT_FOUND");
    expect(
        Error::Repository(RepositoryError::UniqueViolation("taken".to_string())),
        409,
        "taken",
        "UNIQUE_VIOLATION",
    );
    expect(
        Error::Repository(RepositoryError::ForeignKeyViolation("dangling".to_string())),
        400,
        "dangling",
        "FOREIGN_KEY_VIOLATION",
    );
    for error in [
        RepositoryError::Database("x".to_string()),
        RepositoryError::Connection("x".to_string()),
        RepositoryError::Transaction("x".to_string()),
        RepositoryError::Serialization("x".to_string()),
    ] {
        expect(Error::Repository(error), 500, "Repository error occurred", "REPOSITORY_ERROR");
    }
}

#[test]
fn failures_of_a_service_are_answered() {
    expect(
        Error::Service(ServiceError::ValidationError("bad".to_string())),
        400,
        "bad",
        "VALIDATION_ERROR",
    );
    expect(Error::Service(ServiceError::NotFoundError("gone".to_string())), 404, "gone", "NOT_FOUND");
    expect(Error::Service(ServiceError::ConflictError("dup".to_string())), 409, "dup", "CONFLICT");
    expect(
        Error::Service(ServiceError::UnauthorizedError("who".to_string())),
        401,
        "who",
        "UNAUTHORIZED",
    );
    expect(Error::Service(ServiceError::ForbiddenError("no".to_string())), 403, "no", "FORBIDDEN");
    expect(
        Error::Service(ServiceError::RateLimitError),
        429,
        "Rate limit exceeded",
        "RATE_LIMIT_EXCEEDED",
    );
    expect(Error::Service(ServiceError::TimeoutError), 408, "Request timeout", "TIMEOUT");
    for error in [
        ServiceError::Repository(RepositoryError::NotFound),
        ServiceError::InternalError("x".to_string()),
        ServiceError::ExternalServiceError("x".to_string()),
    ] {
        expect(Error::Service(error), 500, "Service error occurred", "SERVICE_ERROR");
    }
}

#[test]
fn failures_to_sign_in_are_answered() {
    expect(
        Error::Auth(AuthError::InvalidCredentials),
        401,
        "Invalid credentials",
        "INVALID_CREDENTIALS",
    );
    expect(Error::Auth(AuthError::TokenExpired), 401, "Token has expired", "TOKEN_EXPIRED");
    expect(
        Error::Auth(AuthError::InvalidToken("x".to_string())),
        401,
        "Invalid token",
        "INVALID_TOKEN",
    );
    expect(
        Error::Auth(AuthError::MissingToken),
        401,
        "Authentication token required",
        "MISSING_TOKEN",
    );
    expect(
        Error::Auth(AuthError::JwtError("x".to_string())),
        401,
        "Authentication error",
        "JWT_ERROR",
    );
}

#[test]
fn failures_of_the_judge_are_answered() {
    expect(
        Error::Judge(JudgeError::CompilationError("line 1".to_string())),
        400,
        "Compilation failed: line 1",
        "COMPILATION_ERROR",
    );
    expect(
        Error::Judge(JudgeError::RuntimeError("boom".to_string())),
        400,
        "Runtime error: boom",
        "RUNTIME_ERROR",
    );
    expect(
        Error::Judge(JudgeError::TimeLimitExceeded),
        400,
        "Time limit exceeded",
        "TIME_LIMIT_EXCEEDED",
    );
    expect(
        Error::Judge(JudgeError::MemoryLimitExceeded),
        400,
        "Memory limit exceeded",
        "MEMORY_LIMIT_EXCEEDED",
    );
    expect(Error::Judge(JudgeError::WrongAnswer), 400, "Wrong answer", "WRONG_ANSWER");
    expect(
        Error::Judge(JudgeError::UnsupportedLanguage("cobol".to_string())),
        400,
        "Unsupported language: cobol",
        "UNSUPPORTED_LANGUAGE",
    );
    for error in [
        JudgeError::SystemError("x".to_string()),
        JudgeError::NoTestCases,
        JudgeError::CodeSizeLimitExceeded,
        JudgeError::SecurityViolation("x".to_string()),
    ] {
        expect(Error::Judge(error), 400, "Judge error occurred", "JUDGE_ERROR");
    }
}

#[test]
fn a_window_defaults_to_the_first_page_of_twenty() {
    assert_eq!(page_window(None, None), PageWindow { page: 1, per_page: 20, offset: 0 });
}

#[test]
fn a_window_is_held_within_its_bounds() {
    assert_eq!(page_window(Some(3), Some(25)), PageWindow { page: 3, per_page: 25, offset: 50 });
    assert_eq!(page_window(Some(0), Some(0)), PageWindow { page: 1, per_page: 1, offset: 0 });
    assert_eq!(page_window(Some(-7), Some(-1)), PageWindow { page: 1, per_page: 1, offset: 0 });
    assert_eq!(
        page_window(Some(2), Some(1000)),
        PageWindow { page: 2, per_page: 100, offset: 100 }
    );
    assert_eq!(page_window(Some(5), None), PageWindow { page: 5, per_page: 20, offset: 80 });
}

#[test]
fn a_window_fits_while_its_offset_does() {
    assert!(window_fits(None, None));
    assert!(window_fits(Some(i32::MAX), Some(1)));
    assert_eq!(
        page_window(Some(i32::MAX), Some(1)),
        PageWindow { page: i32::MAX, per_page: 1, offset: i32::MAX - 1 }
    );
    assert!(!window_fits(Some(i32::MAX), Some(2)));
    assert!(!window_fits(Some(i32::MAX), None));
    assert!(window_fits(Some(21474837), Some(100)));
    assert!(!window_fits(Some(21474838), Some(100)));
}

#[test]
fn verdicts_have_lowercase_names() {
    assert_eq!(SubmissionStatus::Accepted.lowercase_name(), "accepted");
    assert_eq!(SubmissionStatus::WrongAnswer.lowercase_name(), "wronganswer");
    assert_eq!(SubmissionStatus::TimeLimitExceeded.lowercase_name(), "timelimitexceeded");
    assert_eq!(SubmissionStatus::RuntimeError.lowercase_name(), "runtimeerror");
    for status in [
        SubmissionStatus::Accepted,
        SubmissionStatus::WrongAnswer,
        SubmissionStatus::TimeLimitExceeded,
        SubmissionStatus::RuntimeError,
    ] {
        assert_eq!(status.lowercase_name(), format!("{:?}", status).to_lowercase());
    }
}

#[test]
fn a_language_that_is_found_has_a_recipe() {
    assert!(language_config(None).is_none());
    let found = Language {
        name: "go".to_string(),
        display_name: "Go".to_string(),
        file_extension: ".go".to_string(),
        created_at: 0,
    };
    let config = language_config(Some(found)).expect("a recipe");
    assert_eq!(config.name, "go");
    assert_eq!(config.execute_command, "./solution");
}
