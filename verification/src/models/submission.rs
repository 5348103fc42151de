//! Submissions and their verdicts.

use uuid::Uuid;
use vstd::prelude::*;

verus! {

/// Terminal classification of a submission, and of a single attempt in the
/// execution trail.
#[derive(Debug, Clone, Copy, PartialEq, Eq, Structural)]
pub enum SubmissionStatus {
    Accepted,
    WrongAnswer,
    TimeLimitExceeded,
    RuntimeError,
}

impl SubmissionStatus {
    /// The name of the verdict in lower case, as listings print it.
    pub open spec fn name(self) -> Seq<char> {
        match self {
            SubmissionStatus::Accepted => "accepted"@,
            SubmissionStatus::WrongAnswer => "wronganswer"@,
            SubmissionStatus::TimeLimitExceeded => "timelimitexceeded"@,
            SubmissionStatus::RuntimeError => "runtimeerror"@,
        }
    }

    /// The name of the verdict in lower case, as listings print it.
    pub fn lowercase_name(&self) -> (name: String)
        ensures
            name@ == self.name(),
    {
        match self {
            SubmissionStatus::Accepted => String::from_str("accepted"),
            SubmissionStatus::WrongAnswer => String::from_str("wronganswer"),
            SubmissionStatus::TimeLimitExceeded => String::from_str("timelimitexceeded"),
            SubmissionStatus::RuntimeError => String::from_str("runtimeerror"),
        }
    }
}

/// One attempt by a user to solve a problem with code in some language.
/// `created_at` counts microseconds since the Unix epoch.
#[derive(Debug)]
pub struct Submission {
    pub id: Uuid,
    pub user_id: Uuid,
    pub problem_id: Uuid,
    pub language_id: String,
    pub code: String,
    pub status: SubmissionStatus,
    pub execution_time: Option<i32>,
    pub memory_used: Option<i32>,
    pub error_message: Option<String>,
    pub created_at: i64,
}

/// A submission with its texts as sequences of characters.
pub struct SubmissionView {
    pub id: Uuid,
    pub user_id: Uuid,
    pub problem_id: Uuid,
    pub language_id: Seq<char>,
    pub code: Seq<char>,
    pub status: SubmissionStatus,
    pub execution_time: Option<i32>,
    pub memory_used: Option<i32>,
    pub error_message: Option<Seq<char>>,
    pub created_at: i64,
}

impl View for Submission {
    type V = SubmissionView;

    open spec fn view(&self) -> SubmissionView {
        SubmissionView {
            id: self.id,
            user_id: self.user_id,
            problem_id: self.problem_id,
            language_id: self.language_id@,
            code: self.code@,
            status: self.status,
            execution_time: self.execution_time,
            memory_used: self.memory_used,
            error_message: self.error_message.deep_view(),
            created_at: self.created_at,
        }
    }
}

impl DeepView for Submission {
    type V = SubmissionView;

    open spec fn deep_view(&self) -> SubmissionView {
        self@
    }
}

impl Clone for Submission {
    fn clone(&self) -> (r: Self)
        ensures
            r == *self,
    {
        Submission {
            id: self.id,
            user_id: self.user_id,
            problem_id: self.problem_id,
            language_id: self.language_id.clone(),
            code: self.code.clone(),
            status: self.status,
            execution_time: self.execution_time,
            memory_used: self.memory_used,
            error_message: clone_text(&self.error_message),
            created_at: self.created_at,
        }
    }
}

/// A copy of an optional text.
pub fn clone_text(text: &Option<String>) -> (r: Option<String>)
    ensures
        r == *text,
{
    match text {
        Some(t) => Some(t.clone()),
        None => None,
    }
}

/// What a new submission is made of.
#[derive(Debug)]
pub struct CreateSubmissionRequest {
    pub user_id: Uuid,
    pub problem_id: Uuid,
    pub language_id: String,
    pub code: String,
}

impl Clone for CreateSubmissionRequest {
    fn clone(&self) -> (r: Self)
        ensures
            r == *self,
    {
        CreateSubmissionRequest {
            user_id: self.user_id,
            problem_id: self.problem_id,
            language_id: self.language_id.clone(),
            code: self.code.clone(),
        }
    }
}

/// Selection of submissions in a listing.
#[derive(Debug, Clone)]
pub struct SubmissionFilter {
    pub status: Option<SubmissionStatus>,
    pub language_id: Option<String>,
    pub limit: Option<i32>,
    pub offset: Option<i32>,
}

impl Default for SubmissionFilter {
    fn default() -> (r: Self)
        ensures
            r.status.is_none(),
            r.language_id.is_none(),
            r.limit.is_none(),
            r.offset.is_none(),
    {
        SubmissionFilter { status: None, language_id: None, limit: None, offset: None }
    }
}

/// The outcome of judging one submission, with one entry per test case.
#[derive(Debug, Clone)]
pub struct JudgeResult {
    pub status: SubmissionStatus,
    pub execution_time: Option<i32>,
    pub memory_used: Option<i32>,
    pub error_message: Option<String>,
    pub test_results: Vec<TestResult>,
}

/// The outcome of one test case.
#[derive(Debug, Clone)]
pub struct TestResult {
    pub input: String,
    pub expected_output: String,
    pub actual_output: Option<String>,
    pub passed: bool,
    pub execution_time: Option<i32>,
    pub memory_used: Option<i32>,
}

/// The outcome of validating a request.
#[derive(Debug, Clone)]
pub struct ValidationResult {
    pub is_valid: bool,
    pub errors: Vec<String>,
}

/// What one run of a program reported.
#[derive(Debug, Clone)]
pub struct ExecutionResult {
    pub output: String,
    pub execution_time: i32,
    pub memory_used: i32,
    pub exit_code: i32,
}

/// Limits on one run: milliseconds, kilobytes and bytes of source.
#[derive(Debug, Clone)]
pub struct ExecutionLimits {
    pub time_limit: i32,
    pub memory_limit: i32,
    pub code_size_limit: i32,
}

} // verus!
