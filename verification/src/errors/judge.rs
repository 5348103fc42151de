//! Failures of the judging engine.

use crate::text::joined;
use vstd::prelude::*;

verus! {

/// A failure of the judging engine.
#[derive(Debug, Clone)]
pub enum JudgeError {
    /// The compiler rejected the source; the text is what it said.
    CompilationError(String),
    /// The program failed while it ran.
    RuntimeError(String),
    /// The program ran past its deadline.
    TimeLimitExceeded,
    /// The program used more memory than allowed. Never raised: memory is
    /// not measured.
    MemoryLimitExceeded,
    /// The output did not match.
    WrongAnswer,
    /// A file could not be written or a process not started.
    SystemError(String),
    /// The language is not known.
    UnsupportedLanguage(String),
    /// The problem has no test cases.
    NoTestCases,
    /// The source is larger than allowed.
    CodeSizeLimitExceeded,
    /// The program did what it may not. Never raised: nothing is sandboxed.
    SecurityViolation(String),
}

impl JudgeError {
    /// How the failure reads.
    pub open spec fn text(self) -> Seq<char> {
        match self {
            JudgeError::CompilationError(detail) => "Compilation error: "@ + detail@,
            JudgeError::RuntimeError(detail) => "Runtime error: "@ + detail@,
            JudgeError::TimeLimitExceeded => "Time limit exceeded"@,
            JudgeError::MemoryLimitExceeded => "Memory limit exceeded"@,
            JudgeError::WrongAnswer => "Wrong answer"@,
            JudgeError::SystemError(detail) => "System error: "@ + detail@,
            JudgeError::UnsupportedLanguage(language) => "Unsupported language: "@ + language@,
            JudgeError::NoTestCases => "No test cases found for this problem"@,
            JudgeError::CodeSizeLimitExceeded => "Code size limit exceeded"@,
            JudgeError::SecurityViolation(detail) => "Security violation: "@ + detail@,
        }
    }

    /// How the failure reads.
    pub fn message(&self) -> (message: String)
        ensures
            message@ == self.text(),
    {
        match self {
            JudgeError::CompilationError(detail) => joined("Compilation error: ", detail.as_str()),
            JudgeError::RuntimeError(detail) => joined("Runtime error: ", detail.as_str()),
            JudgeError::TimeLimitExceeded => String::from_str("Time limit exceeded"),
            JudgeError::MemoryLimitExceeded => String::from_str("Memory limit exceeded"),
            JudgeError::WrongAnswer => String::from_str("Wrong answer"),
            JudgeError::SystemError(detail) => joined("System error: ", detail.as_str()),
            JudgeError::UnsupportedLanguage(language) => joined(
                "Unsupported language: ",
                language.as_str(),
            ),
            JudgeError::NoTestCases => String::from_str("No test cases found for this problem"),
            JudgeError::CodeSizeLimitExceeded => String::from_str("Code size limit exceeded"),
            JudgeError::SecurityViolation(detail) => joined(
                "Security violation: ",
                detail.as_str(),
            ),
        }
    }
}

} // verus!
