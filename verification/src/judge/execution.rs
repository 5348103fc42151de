//! What the compile stage and the run stage report, shaped from what the
//! operating system handed back.

use crate::text::joined;
use vstd::prelude::*;

verus! {

/// The exit code reported for a run that was stopped at its deadline.
pub const TIMEOUT_EXIT_CODE: i32 = 124;

/// The exit code reported for a process that ended without one.
pub const MISSING_EXIT_CODE: i32 = -1;

/// The memory reported for every completed run, in kilobytes. Memory is not
/// measured.
pub const REPORTED_MEMORY_KB: i32 = 1024;

/// The text found in the error output of a run that was stopped at its
/// deadline.
pub open spec fn timeout_marker() -> Seq<char> {
    "Time limit exceeded"@
}

/// The text that `String::from_utf8_lossy` decodes from `bytes`: the text that
/// the bytes encode in UTF-8, with each ill-formed part replaced by U+FFFD.
pub uninterp spec fn utf8_lossy(bytes: Seq<u8>) -> Seq<char>;

/// `String::from_utf8_lossy`: decodes the output of a process as text. The
/// result depends on the bytes alone.
#[verifier::external_body]
fn lossy_text(bytes: &Vec<u8>) -> (text: String)
    ensures
        text@ == utf8_lossy(bytes@),
{
    String::from_utf8_lossy(bytes).into_owned()
}

/// How the run stage ended for one test case, as the operating system
/// reported it.
#[derive(Debug)]
pub enum RunOutcome {
    /// The process ended before the deadline, after `elapsed_millis`
    /// milliseconds. `exit_code` is absent where a signal ended it.
    Completed { stdout: Vec<u8>, stderr: Vec<u8>, elapsed_millis: u128, exit_code: Option<i32> },
    /// The deadline passed and the process was stopped.
    TimedOut,
}

/// A run outcome with its outputs decoded as text.
pub enum RunOutcomeView {
    Completed { stdout: Seq<char>, stderr: Seq<char>, elapsed_millis: u128, exit_code: Option<i32> },
    TimedOut,
}

impl View for RunOutcome {
    type V = RunOutcomeView;

    open spec fn view(&self) -> RunOutcomeView {
        match *self {
            RunOutcome::Completed { stdout, stderr, elapsed_millis, exit_code } => {
                RunOutcomeView::Completed {
                    stdout: utf8_lossy(stdout@),
                    stderr: utf8_lossy(stderr@),
                    elapsed_millis,
                    exit_code,
                }
            },
            RunOutcome::TimedOut => RunOutcomeView::TimedOut,
        }
    }
}

/// What the run stage reports for one attempt: both outputs, the elapsed
/// time in milliseconds, the memory in kilobytes and the exit code.
#[derive(Debug)]
pub struct ExecutionOutput {
    pub stdout: String,
    pub stderr: String,
    pub execution_time: i32,
    pub memory_used: i32,
    pub exit_code: i32,
}

/// A report of the run stage with its texts as sequences of characters.
pub struct ExecutionOutputView {
    pub stdout: Seq<char>,
    pub stderr: Seq<char>,
    pub execution_time: i32,
    pub memory_used: i32,
    pub exit_code: i32,
}

impl View for ExecutionOutput {
    type V = ExecutionOutputView;

    open spec fn view(&self) -> ExecutionOutputView {
        ExecutionOutputView {
            stdout: self.stdout@,
            stderr: self.stderr@,
            execution_time: self.execution_time,
            memory_used: self.memory_used,
            exit_code: self.exit_code,
        }
    }
}

impl Clone for ExecutionOutput {
    fn clone(&self) -> (r: Self)
        ensures
            r == *self,
    {
        ExecutionOutput {
            stdout: self.stdout.clone(),
            stderr: self.stderr.clone(),
            execution_time: self.execution_time,
            memory_used: self.memory_used,
            exit_code: self.exit_code,
        }
    }
}

/// The report for a run that was stopped at its deadline: no output, the
/// timeout marker as error output, the limit itself as elapsed time, and
/// the timeout exit code.
pub open spec fn timed_out_report(time_limit: i32) -> ExecutionOutputView {
    ExecutionOutputView {
        stdout: Seq::empty(),
        stderr: timeout_marker(),
        execution_time: time_limit,
        memory_used: 0,
        exit_code: TIMEOUT_EXIT_CODE,
    }
}

/// The report for a run that ended by itself: its outputs, the elapsed
/// milliseconds cut to 32 bits, the memory placeholder, and its exit code, or
/// the code that stands for a missing one.
pub open spec fn completed_report(
    stdout: Seq<char>,
    stderr: Seq<char>,
    elapsed_millis: u128,
    exit_code: Option<i32>,
) -> ExecutionOutputView {
    ExecutionOutputView {
        stdout,
        stderr,
        execution_time: elapsed_millis as i32,
        memory_used: REPORTED_MEMORY_KB,
        exit_code: match exit_code {
            Some(code) => code,
            None => MISSING_EXIT_CODE,
        },
    }
}

/// The report of the run stage for an outcome, under the time limit that
/// the run was given.
pub open spec fn report_of(outcome: RunOutcomeView, time_limit: i32) -> ExecutionOutputView {
    match outcome {
        RunOutcomeView::Completed { stdout, stderr, elapsed_millis, exit_code } => completed_report(
            stdout,
            stderr,
            elapsed_millis,
            exit_code,
        ),
        RunOutcomeView::TimedOut => timed_out_report(time_limit),
    }
}

/// The name of the file that holds the source of a submission.
pub open spec fn source_file_of(file_extension: Seq<char>) -> Seq<char> {
    "solution"@ + file_extension
}

impl ExecutionOutput {
    /// The report for a run that was stopped at its deadline.
    pub fn timed_out(time_limit: i32) -> (out: Self)
        ensures
            out@ == timed_out_report(time_limit),
    {
        ExecutionOutput {
            stdout: String::new(),
            stderr: String::from_str("Time limit exceeded"),
            execution_time: time_limit,
            memory_used: 0,
            exit_code: TIMEOUT_EXIT_CODE,
        }
    }

    /// The report for a run that ended by itself.
    pub fn completed(
        stdout: &Vec<u8>,
        stderr: &Vec<u8>,
        elapsed_millis: u128,
        exit_code: Option<i32>,
    ) -> (out: Self)
        ensures
            out@ == completed_report(
                utf8_lossy(stdout@),
                utf8_lossy(stderr@),
                elapsed_millis,
                exit_code,
            ),
            elapsed_millis <= i32::MAX ==> out.execution_time == elapsed_millis,
    {
        ExecutionOutput {
            stdout: lossy_text(stdout),
            stderr: lossy_text(stderr),
            execution_time: #[verifier::truncate]
            (elapsed_millis as i32),
            memory_used: REPORTED_MEMORY_KB,
            exit_code: match exit_code {
                Some(code) => code,
                None => MISSING_EXIT_CODE,
            },
        }
    }

    /// The report of the run stage for an outcome, under the time limit that
    /// the run was given.
    pub fn from_outcome(outcome: &RunOutcome, time_limit: i32) -> (out: Self)
        ensures
            out@ == report_of(outcome@, time_limit),
    {
        match outcome {
            RunOutcome::Completed { stdout, stderr, elapsed_millis, exit_code } => {
                ExecutionOutput::completed(stdout, stderr, *elapsed_millis, *exit_code)
            },
            RunOutcome::TimedOut => ExecutionOutput::timed_out(time_limit),
        }
    }
}

/// The name of the file that the source of a submission is written to:
/// `solution` followed by the extension of its language.
pub fn source_file_name(file_extension: &str) -> (name: String)
    ensures
        name@ == source_file_of(file_extension@),
{
    joined("solution", file_extension)
}

/// What the compile stage reports: nothing where the compiler succeeded,
/// otherwise what the compiler wrote to its error output.
pub fn compile_failure(succeeded: bool, stderr: &Vec<u8>) -> (error: Option<String>)
    ensures
        succeeded ==> error is None,
        !succeeded ==> error is Some && error->0@ == utf8_lossy(stderr@),
{
    if succeeded {
        None
    } else {
        Some(lossy_text(stderr))
    }
}

} // verus!
