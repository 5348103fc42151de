//! The verdict aggregator: the state that one submission's attempts are
//! folded into, and the records that the attempts leave in the execution
//! trail.

use crate::judge::comparator::compare_output;
use crate::judge::comparator::outputs_match;
use crate::judge::execution::timeout_marker;
use crate::judge::execution::ExecutionOutput;
use crate::judge::execution::ExecutionOutputView;
use crate::models::judge::CreateExecutionLogRequest;
use crate::models::judge::ExecutionLogEntry;
use crate::models::submission::clone_text;
use crate::models::submission::SubmissionStatus;
use crate::text::joined;
use crate::text::contains;
use crate::text::contains_text;
use crate::text::count_text;
use crate::text::decimal;
use crate::text::decimal_nat;
use crate::text::decimal_text;
use uuid::Uuid;
use vstd::prelude::*;

verus! {

/// The verdict of one attempt: a program that ends with a failure code has
/// run out of time where its error output carries the timeout marker, and
/// has failed at run time otherwise; one that ends well is accepted where its
/// output matches the expected one.
pub open spec fn verdict_of(expected: Seq<char>, out: ExecutionOutputView) -> SubmissionStatus {
    if out.exit_code != 0 {
        if contains(out.stderr, timeout_marker()) {
            SubmissionStatus::TimeLimitExceeded
        } else {
            SubmissionStatus::RuntimeError
        }
    } else if outputs_match(expected, out.stdout) {
        SubmissionStatus::Accepted
    } else {
        SubmissionStatus::WrongAnswer
    }
}

/// The message that a submission carries after an attempt with the given
/// verdict. An accepted attempt leaves none.
pub open spec fn failure_message(verdict: SubmissionStatus, out: ExecutionOutputView) -> Option<
    Seq<char>,
> {
    match verdict {
        SubmissionStatus::Accepted => None,
        SubmissionStatus::WrongAnswer => Some("Wrong answer"@),
        SubmissionStatus::TimeLimitExceeded => Some(timeout_marker()),
        SubmissionStatus::RuntimeError => Some(
            if out.stderr.len() == 0 {
                "Runtime error (exit code: "@ + decimal(out.exit_code as int) + ")"@
            } else {
                out.stderr
            },
        ),
    }
}

/// The message in the record of an attempt: none for an accepted one, the
/// number of the test case for a wrong answer, and the submission's message
/// for the rest.
pub open spec fn record_message(
    case_number: nat,
    verdict: SubmissionStatus,
    out: ExecutionOutputView,
) -> Option<Seq<char>> {
    match verdict {
        SubmissionStatus::Accepted => None,
        SubmissionStatus::WrongAnswer => Some(
            "Test case "@ + decimal_nat(case_number) + " failed"@,
        ),
        _ => failure_message(verdict, out),
    }
}

/// The record that an attempt on test case `case_number` leaves in the
/// execution trail.
pub open spec fn attempt_entry(
    submission_id: Uuid,
    language: Seq<char>,
    case_number: nat,
    verdict: SubmissionStatus,
    out: ExecutionOutputView,
) -> ExecutionLogEntry {
    ExecutionLogEntry {
        submission_id,
        language,
        execution_time: Some(out.execution_time),
        memory_used: Some(out.memory_used),
        exit_code: Some(out.exit_code),
        stdout: Some(out.stdout),
        stderr: if out.stderr.len() == 0 {
            None
        } else {
            Some(out.stderr)
        },
        status: verdict,
        error_message: record_message(case_number, verdict, out),
    }
}

/// The record that a failure without a report of the run stage leaves in
/// the execution trail: a runtime error with the message as error output.
pub open spec fn failure_entry(
    submission_id: Uuid,
    language: Seq<char>,
    message: Seq<char>,
) -> ExecutionLogEntry {
    ExecutionLogEntry {
        submission_id,
        language,
        execution_time: None,
        memory_used: None,
        exit_code: None,
        stdout: None,
        stderr: Some(message),
        status: SubmissionStatus::RuntimeError,
        error_message: Some(message),
    }
}

/// The state of the aggregator with its message as a sequence of characters.
pub struct Tally {
    pub status: SubmissionStatus,
    pub error_message: Option<Seq<char>>,
    pub passed_tests: nat,
    pub max_execution_time: i32,
    pub max_memory_used: i32,
}

/// The state before any attempt: accepted, nothing passed, nothing measured.
pub open spec fn initial_tally() -> Tally {
    Tally {
        status: SubmissionStatus::Accepted,
        error_message: None,
        passed_tests: 0,
        max_execution_time: 0,
        max_memory_used: 0,
    }
}

/// The larger of two measurements.
pub open spec fn larger(a: i32, b: i32) -> i32 {
    if a >= b {
        a
    } else {
        b
    }
}

/// The state after an attempt. A verdict other than accepted stays once it
/// is set; the maxima follow every attempt.
pub open spec fn folded(tally: Tally, expected: Seq<char>, out: ExecutionOutputView) -> Tally {
    let verdict = verdict_of(expected, out);
    let open = tally.status == SubmissionStatus::Accepted;
    Tally {
        status: if open {
            verdict
        } else {
            tally.status
        },
        error_message: if open && verdict != SubmissionStatus::Accepted {
            failure_message(verdict, out)
        } else {
            tally.error_message
        },
        passed_tests: if verdict == SubmissionStatus::Accepted {
            tally.passed_tests + 1
        } else {
            tally.passed_tests
        },
        max_execution_time: larger(tally.max_execution_time, out.execution_time),
        max_memory_used: larger(tally.max_memory_used, out.memory_used),
    }
}

/// The state after a failure of the process layer: a runtime error with the
/// given message, unless another verdict was set before.
pub open spec fn broken(tally: Tally, message: Seq<char>) -> Tally {
    if tally.status == SubmissionStatus::Accepted {
        Tally { status: SubmissionStatus::RuntimeError, error_message: Some(message), ..tally }
    } else {
        tally
    }
}

/// A measurement as it is stored: zero counts as absent.
pub open spec fn measured(value: i32) -> Option<i32> {
    if value > 0 {
        Some(value)
    } else {
        None
    }
}

/// The arguments of one write of a submission's status.
#[derive(Debug)]
pub struct StatusUpdate {
    pub submission_id: Uuid,
    pub status: SubmissionStatus,
    pub execution_time: Option<i32>,
    pub memory_used: Option<i32>,
    pub error_message: Option<String>,
}

/// A write of a submission's status with its message as a sequence of
/// characters.
pub struct StatusUpdateView {
    pub submission_id: Uuid,
    pub status: SubmissionStatus,
    pub execution_time: Option<i32>,
    pub memory_used: Option<i32>,
    pub error_message: Option<Seq<char>>,
}

impl View for StatusUpdate {
    type V = StatusUpdateView;

    open spec fn view(&self) -> StatusUpdateView {
        StatusUpdateView {
            submission_id: self.submission_id,
            status: self.status,
            execution_time: self.execution_time,
            memory_used: self.memory_used,
            error_message: self.error_message.deep_view(),
        }
    }
}

/// The final write for a submission whose attempts were folded into
/// `tally`: its verdict, its maxima with zero as absent, and its message.
pub open spec fn final_update(submission_id: Uuid, tally: Tally) -> StatusUpdateView {
    StatusUpdateView {
        submission_id,
        status: tally.status,
        execution_time: measured(tally.max_execution_time),
        memory_used: measured(tally.max_memory_used),
        error_message: tally.error_message,
    }
}

/// The write for a submission that failed without a measurement: a runtime
/// error with the given message.
pub open spec fn failure_update(submission_id: Uuid, message: Seq<char>) -> StatusUpdateView {
    StatusUpdateView {
        submission_id,
        status: SubmissionStatus::RuntimeError,
        execution_time: None,
        memory_used: None,
        error_message: Some(message),
    }
}

/// The verdict aggregator: the worst verdict seen so far with its message,
/// the number of test cases passed, and the running maxima of time and
/// memory.
#[derive(Debug)]
pub struct VerdictAggregator {
    pub status: SubmissionStatus,
    pub error_message: Option<String>,
    pub passed_tests: usize,
    pub max_execution_time: i32,
    pub max_memory_used: i32,
}

impl View for VerdictAggregator {
    type V = Tally;

    open spec fn view(&self) -> Tally {
        Tally {
            status: self.status,
            error_message: self.error_message.deep_view(),
            passed_tests: self.passed_tests as nat,
            max_execution_time: self.max_execution_time,
            max_memory_used: self.max_memory_used,
        }
    }
}

/// The verdict of one attempt.
pub fn attempt_verdict(expected: &str, out: &ExecutionOutput) -> (verdict: SubmissionStatus)
    ensures
        verdict == verdict_of(expected@, out@),
{
    if out.exit_code != 0 {
        if contains_text(out.stderr.as_str(), "Time limit exceeded") {
            SubmissionStatus::TimeLimitExceeded
        } else {
            SubmissionStatus::RuntimeError
        }
    } else if compare_output(expected, out.stdout.as_str()) {
        SubmissionStatus::Accepted
    } else {
        SubmissionStatus::WrongAnswer
    }
}

/// The message that a submission carries after an attempt with the given
/// verdict.
pub fn attempt_message(verdict: SubmissionStatus, out: &ExecutionOutput) -> (message: Option<
    String,
>)
    ensures
        message.deep_view() == failure_message(verdict, out@),
{
    match verdict {
        SubmissionStatus::Accepted => None,
        SubmissionStatus::WrongAnswer => Some(String::from_str("Wrong answer")),
        SubmissionStatus::TimeLimitExceeded => Some(String::from_str("Time limit exceeded")),
        SubmissionStatus::RuntimeError => {
            if out.stderr.as_str().is_empty() {
                let code = decimal_text(out.exit_code);
                let head = joined("Runtime error (exit code: ", code.as_str());
                Some(joined(head.as_str(), ")"))
            } else {
                Some(out.stderr.clone())
            }
        },
    }
}

/// The record that an attempt on test case `case_number` leaves in the
/// execution trail.
pub fn attempt_log(
    submission_id: Uuid,
    language: &str,
    case_number: usize,
    verdict: SubmissionStatus,
    out: &ExecutionOutput,
) -> (log: CreateExecutionLogRequest)
    ensures
        log@ == attempt_entry(submission_id, language@, case_number as nat, verdict, out@),
{
    let error_message = match verdict {
        SubmissionStatus::Accepted => None,
        SubmissionStatus::WrongAnswer => {
            let number = count_text(case_number);
            let head = joined("Test case ", number.as_str());
            Some(joined(head.as_str(), " failed"))
        },
        _ => attempt_message(verdict, out),
    };
    let stderr = if out.stderr.as_str().is_empty() {
        None
    } else {
        Some(out.stderr.clone())
    };
    CreateExecutionLogRequest {
        submission_id,
        language: String::from_str(language),
        execution_time: Some(out.execution_time),
        memory_used: Some(out.memory_used),
        exit_code: Some(out.exit_code),
        stdout: Some(out.stdout.clone()),
        stderr,
        status: verdict,
        error_message,
    }
}

/// The record that a failure without a report of the run stage leaves in
/// the execution trail.
pub fn failure_log(submission_id: Uuid, language: &str, message: &str) -> (log:
    CreateExecutionLogRequest)
    ensures
        log@ == failure_entry(submission_id, language@, message@),
{
    CreateExecutionLogRequest {
        submission_id,
        language: String::from_str(language),
        execution_time: None,
        memory_used: None,
        exit_code: None,
        stdout: None,
        stderr: Some(String::from_str(message)),
        status: SubmissionStatus::RuntimeError,
        error_message: Some(String::from_str(message)),
    }
}

/// The write for a submission that failed without a measurement.
pub fn failure_status(submission_id: Uuid, message: String) -> (update: StatusUpdate)
    ensures
        update@ == failure_update(submission_id, message@),
{
    StatusUpdate {
        submission_id,
        status: SubmissionStatus::RuntimeError,
        execution_time: None,
        memory_used: None,
        error_message: Some(message),
    }
}

impl VerdictAggregator {
    /// The aggregator before any attempt.
    pub fn new() -> (aggregator: Self)
        ensures
            aggregator@ == initial_tally(),
    {
        VerdictAggregator {
            status: SubmissionStatus::Accepted,
            error_message: None,
            passed_tests: 0,
            max_execution_time: 0,
            max_memory_used: 0,
        }
    }

    /// Folds one attempt into the state and returns its verdict.
    pub fn record(&mut self, expected: &str, out: &ExecutionOutput) -> (verdict: SubmissionStatus)
        requires
            old(self).passed_tests < usize::MAX,
        ensures
            verdict == verdict_of(expected@, out@),
            final(self)@ == folded(old(self)@, expected@, out@),
    {
        let verdict = attempt_verdict(expected, out);
        let open = self.status == SubmissionStatus::Accepted;
        if open {
            self.status = verdict;
            if verdict != SubmissionStatus::Accepted {
                self.error_message = attempt_message(verdict, out);
            }
        }
        if verdict == SubmissionStatus::Accepted {
            self.passed_tests = self.passed_tests + 1;
        }
        if out.execution_time > self.max_execution_time {
            self.max_execution_time = out.execution_time;
        }
        if out.memory_used > self.max_memory_used {
            self.max_memory_used = out.memory_used;
        }
        verdict
    }

    /// Folds a failure of the process layer into the state.
    pub fn record_failure(&mut self, message: String)
        ensures
            final(self)@ == broken(old(self)@, message@),
    {
        if self.status == SubmissionStatus::Accepted {
            self.status = SubmissionStatus::RuntimeError;
            self.error_message = Some(message);
        }
    }

    /// Whether the next test case is to be attempted: only while nothing has
    /// failed.
    pub fn continues(&self) -> (go_on: bool)
        ensures
            go_on == (self@.status == SubmissionStatus::Accepted),
    {
        self.status == SubmissionStatus::Accepted
    }

    /// The final write for the submission.
    pub fn final_status(&self, submission_id: Uuid) -> (update: StatusUpdate)
        ensures
            update@ == final_update(submission_id, self@),
    {
        StatusUpdate {
            submission_id,
            status: self.status,
            execution_time: if self.max_execution_time > 0 {
                Some(self.max_execution_time)
            } else {
                None
            },
            memory_used: if self.max_memory_used > 0 {
                Some(self.max_memory_used)
            } else {
                None
            },
            error_message: clone_text(&self.error_message),
        }
    }
}

} // verus!
