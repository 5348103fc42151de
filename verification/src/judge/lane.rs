//! The lane of one submission: a state machine that is told what the
//! stores and the stages answered and says what to ask of them next.
//!
//! The lane itself performs nothing. Whoever drives it performs each
//! [`LaneAction`] and hands the answer back as a [`LaneEvent`], until the
//! lane says [`LaneAction::Finish`].

use crate::judge::execution::compile_failure;
use crate::judge::execution::report_of;
use crate::judge::execution::source_file_name;
use crate::judge::execution::source_file_of;
use crate::judge::execution::utf8_lossy;
use crate::judge::execution::ExecutionOutput;
use crate::judge::execution::RunOutcome;
use crate::judge::execution::RunOutcomeView;
use crate::judge::verdict::attempt_entry;
use crate::judge::verdict::attempt_log;
use crate::judge::verdict::broken;
use crate::judge::verdict::failure_entry;
use crate::judge::verdict::failure_log;
use crate::judge::verdict::failure_status;
use crate::judge::verdict::failure_update;
use crate::judge::verdict::final_update;
use crate::judge::verdict::folded;
use crate::judge::verdict::initial_tally;
use crate::judge::verdict::verdict_of;
use crate::judge::verdict::StatusUpdate;
use crate::judge::verdict::StatusUpdateView;
use crate::judge::verdict::Tally;
use crate::judge::verdict::VerdictAggregator;
use crate::models::judge::config_of;
use crate::models::judge::CreateExecutionLogRequest;
use crate::models::judge::ExecutionLogEntry;
use crate::models::judge::LanguageConfig;
use crate::models::language::Language;
use crate::models::language::LanguageView;
use crate::models::submission::clone_text;
use crate::models::submission::Submission;
use crate::models::submission::SubmissionStatus;
use crate::models::submission::SubmissionView;
use crate::models::test_case::TestCase;
use crate::models::test_case::TestCaseView;
use crate::text::joined;
use uuid::Uuid;
use vstd::prelude::*;

verus! {

/// Why a lane ended without judging its submission.
#[derive(Debug)]
pub enum LaneError {
    /// The submission store holds no submission under the identifier.
    SubmissionNotFound,
    /// A store failed; the text is what the store said.
    Store(String),
    /// The lane was handed an event that does not answer what it asked for.
    UnexpectedEvent,
}

/// The reason a lane ended, with its text as a sequence of characters.
pub enum LaneErrorView {
    SubmissionNotFound,
    Store(Seq<char>),
    UnexpectedEvent,
}

impl View for LaneError {
    type V = LaneErrorView;

    open spec fn view(&self) -> LaneErrorView {
        match *self {
            LaneError::SubmissionNotFound => LaneErrorView::SubmissionNotFound,
            LaneError::Store(detail) => LaneErrorView::Store(detail@),
            LaneError::UnexpectedEvent => LaneErrorView::UnexpectedEvent,
        }
    }
}

impl DeepView for LaneError {
    type V = LaneErrorView;

    open spec fn deep_view(&self) -> LaneErrorView {
        self@
    }
}

/// How a lane ended.
pub type LaneResult = Result<(), LaneError>;

/// How a lane ended, with its text as a sequence of characters.
pub type LaneResultView = Result<(), LaneErrorView>;

/// The view of the way a lane ended.
pub open spec fn result_view(result: LaneResult) -> LaneResultView {
    match result {
        Ok(_) => Ok(()),
        Err(error) => Err(error@),
    }
}

/// What the driver of a lane reports back to it.
#[derive(Debug)]
pub enum LaneEvent {
    /// The submission store answered a lookup.
    SubmissionLoaded(Option<Submission>),
    /// The language store said whether it knows the language.
    LanguageChecked(bool),
    /// The test case store listed the test cases of the problem, in order.
    TestCasesLoaded(Vec<TestCase>),
    /// The language store answered a lookup.
    LanguageLoaded(Option<Language>),
    /// The compile stage ended: the source is written and, where the language
    /// is built, the compiler has run and left `stderr`.
    Compiled { succeeded: bool, stderr: Vec<u8> },
    /// The run stage ended for the test case in turn.
    Ran(RunOutcome),
    /// The process layer failed: a file could not be written or a process
    /// not started. The text is what the operating system said.
    SystemError(String),
    /// The execution log store appended the record.
    LogRecorded,
    /// The submission store wrote the status.
    StatusUpdated,
    /// The store that was asked failed. The text is what it said.
    StoreFailed(String),
}

/// An event with its texts as sequences of characters.
pub enum LaneEventView {
    SubmissionLoaded(Option<SubmissionView>),
    LanguageChecked(bool),
    TestCasesLoaded(Seq<TestCaseView>),
    LanguageLoaded(Option<LanguageView>),
    Compiled { succeeded: bool, stderr: Seq<char> },
    Ran(RunOutcomeView),
    SystemError(Seq<char>),
    LogRecorded,
    StatusUpdated,
    StoreFailed(Seq<char>),
}

impl View for LaneEvent {
    type V = LaneEventView;

    open spec fn view(&self) -> LaneEventView {
        match *self {
            LaneEvent::SubmissionLoaded(found) => LaneEventView::SubmissionLoaded(
                found.deep_view(),
            ),
            LaneEvent::LanguageChecked(known) => LaneEventView::LanguageChecked(known),
            LaneEvent::TestCasesLoaded(cases) => LaneEventView::TestCasesLoaded(cases.deep_view()),
            LaneEvent::LanguageLoaded(found) => LaneEventView::LanguageLoaded(found.deep_view()),
            LaneEvent::Compiled { succeeded, stderr } => LaneEventView::Compiled {
                succeeded,
                stderr: utf8_lossy(stderr@),
            },
            LaneEvent::Ran(outcome) => LaneEventView::Ran(outcome@),
            LaneEvent::SystemError(detail) => LaneEventView::SystemError(detail@),
            LaneEvent::LogRecorded => LaneEventView::LogRecorded,
            LaneEvent::StatusUpdated => LaneEventView::StatusUpdated,
            LaneEvent::StoreFailed(detail) => LaneEventView::StoreFailed(detail@),
        }
    }
}

/// What a lane asks its driver to do next.
#[derive(Debug)]
#[allow(inconsistent_fields)]
pub enum LaneAction {
    /// Look the submission up in the submission store.
    LoadSubmission { submission_id: Uuid },
    /// Ask the language store whether it knows the language.
    CheckLanguage { name: String },
    /// List the test cases of the problem.
    LoadTestCases { problem_id: Uuid, include_hidden: bool },
    /// Look the language up in the language store.
    LoadLanguage { name: String },
    /// Write `code` to `file_name` in the workspace and, where there is a
    /// command, run it there.
    Compile { file_name: String, code: String, command: Option<String> },
    /// Run `command` in the workspace with `input` on its standard input,
    /// for at most `time_limit` milliseconds.
    Run { command: String, input: String, time_limit: i32 },
    /// Append the record to the execution trail.
    RecordLog(CreateExecutionLogRequest),
    /// Write the status of the submission.
    UpdateStatus(StatusUpdate),
    /// Nothing more: the lane has ended.
    Finish(LaneResult),
}

/// An action with its texts as sequences of characters.
#[allow(inconsistent_fields)]
pub enum LaneActionView {
    LoadSubmission { submission_id: Uuid },
    CheckLanguage { name: Seq<char> },
    LoadTestCases { problem_id: Uuid, include_hidden: bool },
    LoadLanguage { name: Seq<char> },
    Compile { file_name: Seq<char>, code: Seq<char>, command: Option<Seq<char>> },
    Run { command: Seq<char>, input: Seq<char>, time_limit: i32 },
    RecordLog(ExecutionLogEntry),
    UpdateStatus(StatusUpdateView),
    Finish(LaneResultView),
}

impl View for LaneAction {
    type V = LaneActionView;

    open spec fn view(&self) -> LaneActionView {
        match *self {
            LaneAction::LoadSubmission { submission_id } => LaneActionView::LoadSubmission {
                submission_id,
            },
            LaneAction::CheckLanguage { name } => LaneActionView::CheckLanguage { name: name@ },
            LaneAction::LoadTestCases { problem_id, include_hidden } => {
                LaneActionView::LoadTestCases { problem_id, include_hidden }
            },
            LaneAction::LoadLanguage { name } => LaneActionView::LoadLanguage { name: name@ },
            LaneAction::Compile { file_name, code, command } => LaneActionView::Compile {
                file_name: file_name@,
                code: code@,
                command: command.deep_view(),
            },
            LaneAction::Run { command, input, time_limit } => LaneActionView::Run {
                command: command@,
                input: input@,
                time_limit,
            },
            LaneAction::RecordLog(entry) => LaneActionView::RecordLog(entry@),
            LaneAction::UpdateStatus(update) => LaneActionView::UpdateStatus(update@),
            LaneAction::Finish(result) => LaneActionView::Finish(result_view(result)),
        }
    }
}

/// What a lane knows while it attempts the test cases one after another.
pub struct Attempts {
    pub submission_id: Uuid,
    pub language: Seq<char>,
    pub test_cases: Seq<TestCaseView>,
    pub command: Seq<char>,
    pub time_limit: i32,
    /// The index of the test case in turn.
    pub next: nat,
    pub tally: Tally,
}

/// The state of a lane, named after what it waits for.
pub enum LaneState {
    AwaitingSubmission { submission_id: Uuid },
    AwaitingLanguageCheck { submission_id: Uuid, submission: SubmissionView },
    AwaitingTestCases { submission_id: Uuid, submission: SubmissionView },
    AwaitingLanguage {
        submission_id: Uuid,
        submission: SubmissionView,
        test_cases: Seq<TestCaseView>,
    },
    AwaitingCompile { run: Attempts },
    AwaitingRun { run: Attempts },
    /// The record of the attempt on the test case in turn is being written.
    AwaitingAttemptLog { run: Attempts },
    /// The record of a failure before any attempt is being written.
    AwaitingFailureLog { submission_id: Uuid, message: Seq<char> },
    /// The last write of the status is under way; `result` is how the lane
    /// ends once it is done.
    AwaitingStatus { result: LaneResultView },
    Finished { result: LaneResultView },
}

/// The text of the reason a lane ended.
pub open spec fn error_text(error: LaneErrorView) -> Seq<char> {
    match error {
        LaneErrorView::SubmissionNotFound => "Service error: Not found: Submission not found"@,
        LaneErrorView::Store(detail) => "Database connection error: "@ + detail,
        LaneErrorView::UnexpectedEvent => "Internal server error"@,
    }
}

/// The message for a language that the language store does not know.
pub open spec fn unsupported_message(language: Seq<char>) -> Seq<char> {
    "Unsupported language: "@ + language
}

/// The message for a problem without test cases.
pub open spec fn no_test_cases_message() -> Seq<char> {
    "No test cases found for this problem"@
}

/// The message for a failure of the process layer.
pub open spec fn system_error_message(detail: Seq<char>) -> Seq<char> {
    "Execution error: Judge error: System error: "@ + detail
}

/// The message written to a submission whose lane ended with an error.
pub open spec fn lane_failure_message(error: LaneErrorView) -> Seq<char> {
    "Judge system error: "@ + error_text(error)
}

/// The state of a lane that has just been started.
pub open spec fn initial_state(submission_id: Uuid) -> LaneState {
    LaneState::AwaitingSubmission { submission_id }
}

/// The lane ends with `result`.
pub open spec fn halted(result: LaneResultView) -> (LaneState, LaneActionView) {
    (LaneState::Finished { result }, LaneActionView::Finish(result))
}

/// An event that does not answer what the lane asked for ends the lane.
pub open spec fn stray() -> (LaneState, LaneActionView) {
    halted(Err(LaneErrorView::UnexpectedEvent))
}

/// The lane failed before it judged anything: it writes a runtime error
/// that names the failure to the submission and then ends with the failure.
pub open spec fn reported(submission_id: Uuid, error: LaneErrorView) -> (
    LaneState,
    LaneActionView,
) {
    (
        LaneState::AwaitingStatus { result: Err(error) },
        LaneActionView::UpdateStatus(failure_update(submission_id, lane_failure_message(error))),
    )
}

/// Judging fails before any attempt: one record goes to the execution trail.
pub open spec fn refused(submission_id: Uuid, language: Seq<char>, message: Seq<char>) -> (
    LaneState,
    LaneActionView,
) {
    (
        LaneState::AwaitingFailureLog { submission_id, message },
        LaneActionView::RecordLog(failure_entry(submission_id, language, message)),
    )
}

/// The run stage is asked to attempt the test case in turn.
pub open spec fn attempting(run: Attempts) -> (LaneState, LaneActionView) {
    (
        LaneState::AwaitingRun { run },
        LaneActionView::Run {
            command: run.command,
            input: run.test_cases[run.next as int].input_data,
            time_limit: run.time_limit,
        },
    )
}

/// The attempts are over: the final status is written.
pub open spec fn concluding(run: Attempts) -> (LaneState, LaneActionView) {
    (
        LaneState::AwaitingStatus { result: Ok(()) },
        LaneActionView::UpdateStatus(final_update(run.submission_id, run.tally)),
    )
}

/// What the lane knows when it turns to the first test case.
pub open spec fn first_attempt(
    submission_id: Uuid,
    submission: SubmissionView,
    test_cases: Seq<TestCaseView>,
    language: LanguageView,
) -> Attempts {
    Attempts {
        submission_id,
        language: submission.language_id,
        test_cases,
        command: config_of(language).execute_command,
        time_limit: config_of(language).time_limit,
        next: 0,
        tally: initial_tally(),
    }
}

/// The step of a lane that waits for its submission.
pub open spec fn on_submission(submission_id: Uuid, event: LaneEventView) -> (
    LaneState,
    LaneActionView,
) {
    match event {
        LaneEventView::SubmissionLoaded(Some(submission)) => (
            LaneState::AwaitingLanguageCheck { submission_id, submission },
            LaneActionView::CheckLanguage { name: submission.language_id },
        ),
        LaneEventView::SubmissionLoaded(None) => reported(
            submission_id,
            LaneErrorView::SubmissionNotFound,
        ),
        LaneEventView::StoreFailed(detail) => reported(submission_id, LaneErrorView::Store(detail)),
        _ => stray(),
    }
}

/// The step of a lane that waits to hear whether the language is known.
pub open spec fn on_language_check(
    submission_id: Uuid,
    submission: SubmissionView,
    event: LaneEventView,
) -> (LaneState, LaneActionView) {
    match event {
        LaneEventView::LanguageChecked(true) => (
            LaneState::AwaitingTestCases { submission_id, submission },
            LaneActionView::LoadTestCases {
                problem_id: submission.problem_id,
                include_hidden: true,
            },
        ),
        LaneEventView::LanguageChecked(false) => refused(
            submission_id,
            submission.language_id,
            unsupported_message(submission.language_id),
        ),
        LaneEventView::StoreFailed(detail) => reported(submission_id, LaneErrorView::Store(detail)),
        _ => stray(),
    }
}

/// The step of a lane that waits for the test cases.
pub open spec fn on_test_cases(
    submission_id: Uuid,
    submission: SubmissionView,
    event: LaneEventView,
) -> (LaneState, LaneActionView) {
    match event {
        LaneEventView::TestCasesLoaded(test_cases) => if test_cases.len() == 0 {
            refused(submission_id, submission.language_id, no_test_cases_message())
        } else {
            (
                LaneState::AwaitingLanguage { submission_id, submission, test_cases },
                LaneActionView::LoadLanguage { name: submission.language_id },
            )
        },
        LaneEventView::StoreFailed(detail) => reported(submission_id, LaneErrorView::Store(detail)),
        _ => stray(),
    }
}

/// The step of a lane that waits for the language.
pub open spec fn on_language(
    submission_id: Uuid,
    submission: SubmissionView,
    test_cases: Seq<TestCaseView>,
    event: LaneEventView,
) -> (LaneState, LaneActionView) {
    match event {
        LaneEventView::LanguageLoaded(Some(language)) => (
            LaneState::AwaitingCompile {
                run: first_attempt(submission_id, submission, test_cases, language),
            },
            LaneActionView::Compile {
                file_name: source_file_of(language.file_extension),
                code: submission.code,
                command: config_of(language).compile_command,
            },
        ),
        LaneEventView::LanguageLoaded(None) => refused(
            submission_id,
            submission.language_id,
            unsupported_message(submission.language_id),
        ),
        LaneEventView::StoreFailed(detail) => reported(submission_id, LaneErrorView::Store(detail)),
        _ => stray(),
    }
}

/// The process layer failed during the attempt in turn: the failure is
/// folded into the verdict and leaves one record.
pub open spec fn broken_attempt(run: Attempts, detail: Seq<char>) -> (LaneState, LaneActionView) {
    let message = system_error_message(detail);
    (
        LaneState::AwaitingAttemptLog { run: Attempts { tally: broken(run.tally, message), ..run } },
        LaneActionView::RecordLog(failure_entry(run.submission_id, run.language, message)),
    )
}

/// The step of a lane that waits for the compile stage.
pub open spec fn on_compile(run: Attempts, event: LaneEventView) -> (LaneState, LaneActionView) {
    match event {
        LaneEventView::Compiled { succeeded, stderr } => if succeeded {
            attempting(run)
        } else {
            (
                LaneState::AwaitingStatus { result: Ok(()) },
                LaneActionView::UpdateStatus(failure_update(run.submission_id, stderr)),
            )
        },
        LaneEventView::SystemError(detail) => broken_attempt(run, detail),
        _ => stray(),
    }
}

/// The step of a lane that waits for the run stage.
pub open spec fn on_run(run: Attempts, event: LaneEventView) -> (LaneState, LaneActionView) {
    match event {
        LaneEventView::Ran(outcome) => {
            let out = report_of(outcome, run.time_limit);
            let expected = run.test_cases[run.next as int].expected_output;
            (
                LaneState::AwaitingAttemptLog {
                    run: Attempts { tally: folded(run.tally, expected, out), ..run },
                },
                LaneActionView::RecordLog(
                    attempt_entry(
                        run.submission_id,
                        run.language,
                        run.next + 1,
                        verdict_of(expected, out),
                        out,
                    ),
                ),
            )
        },
        LaneEventView::SystemError(detail) => broken_attempt(run, detail),
        _ => stray(),
    }
}

/// The step of a lane that waits for the record of an attempt to be written:
/// the next test case is attempted while nothing has failed and one is left.
pub open spec fn on_attempt_log(run: Attempts, event: LaneEventView) -> (
    LaneState,
    LaneActionView,
) {
    match event {
        LaneEventView::LogRecorded => if run.tally.status == SubmissionStatus::Accepted && run.next
            + 1 < run.test_cases.len() {
            attempting(Attempts { next: run.next + 1, ..run })
        } else {
            concluding(run)
        },
        LaneEventView::StoreFailed(detail) => halted(Err(LaneErrorView::Store(detail))),
        _ => stray(),
    }
}

/// The step of a lane that waits for the record of a failure to be written.
pub open spec fn on_failure_log(submission_id: Uuid, message: Seq<char>, event: LaneEventView) -> (
    LaneState,
    LaneActionView,
) {
    match event {
        LaneEventView::LogRecorded => (
            LaneState::AwaitingStatus { result: Ok(()) },
            LaneActionView::UpdateStatus(failure_update(submission_id, message)),
        ),
        LaneEventView::StoreFailed(detail) => halted(Err(LaneErrorView::Store(detail))),
        _ => stray(),
    }
}

/// The step of a lane that waits for its last write of the status. Where
/// the write fails after the judging went well, the lane ends with that
/// failure; where the lane had failed before, it ends with the first failure.
pub open spec fn on_status(result: LaneResultView, event: LaneEventView) -> (
    LaneState,
    LaneActionView,
) {
    match event {
        LaneEventView::StatusUpdated => halted(result),
        LaneEventView::StoreFailed(detail) => match result {
            Ok(_) => halted(Err(LaneErrorView::Store(detail))),
            Err(_) => halted(result),
        },
        _ => stray(),
    }
}

/// One step of a lane: the state after an event, and what the lane asks
/// for next.
pub open spec fn step_of(state: LaneState, event: LaneEventView) -> (LaneState, LaneActionView) {
    match state {
        LaneState::AwaitingSubmission { submission_id } => on_submission(submission_id, event),
        LaneState::AwaitingLanguageCheck { submission_id, submission } => on_language_check(
            submission_id,
            submission,
            event,
        ),
        LaneState::AwaitingTestCases { submission_id, submission } => on_test_cases(
            submission_id,
            submission,
            event,
        ),
        LaneState::AwaitingLanguage { submission_id, submission, test_cases } => on_language(
            submission_id,
            submission,
            test_cases,
            event,
        ),
        LaneState::AwaitingCompile { run } => on_compile(run, event),
        LaneState::AwaitingRun { run } => on_run(run, event),
        LaneState::AwaitingAttemptLog { run } => on_attempt_log(run, event),
        LaneState::AwaitingFailureLog { submission_id, message } => on_failure_log(
            submission_id,
            message,
            event,
        ),
        LaneState::AwaitingStatus { result } => on_status(result, event),
        LaneState::Finished { result } => halted(result),
    }
}

/// What a lane holds while it attempts the test cases one after another.
struct Progress {
    submission_id: Uuid,
    language: String,
    test_cases: Vec<TestCase>,
    command: String,
    time_limit: i32,
    next: usize,
    verdict: VerdictAggregator,
}

impl View for Progress {
    type V = Attempts;

    closed spec fn view(&self) -> Attempts {
        Attempts {
            submission_id: self.submission_id,
            language: self.language@,
            test_cases: self.test_cases.deep_view(),
            command: self.command@,
            time_limit: self.time_limit,
            next: self.next as nat,
            tally: self.verdict@,
        }
    }
}

/// What a lane waits for, with what it has gathered so far.
enum Stage {
    AwaitingSubmission { submission_id: Uuid },
    AwaitingLanguageCheck { submission_id: Uuid, submission: Submission },
    AwaitingTestCases { submission_id: Uuid, submission: Submission },
    AwaitingLanguage { submission_id: Uuid, submission: Submission, test_cases: Vec<TestCase> },
    AwaitingCompile { run: Progress },
    AwaitingRun { run: Progress },
    AwaitingAttemptLog { run: Progress },
    AwaitingFailureLog { submission_id: Uuid, message: String },
    AwaitingStatus { result: LaneResult },
    Finished { result: LaneResult },
}

/// The lane of one submission. It is made by [`JudgeLane::start`] and moved
/// on by [`JudgeLane::step`]; its state is seen through its view.
pub struct JudgeLane {
    stage: Stage,
}

impl View for JudgeLane {
    type V = LaneState;

    closed spec fn view(&self) -> LaneState {
        match self.stage {
            Stage::AwaitingSubmission { submission_id } => LaneState::AwaitingSubmission {
                submission_id,
            },
            Stage::AwaitingLanguageCheck { submission_id, submission } => {
                LaneState::AwaitingLanguageCheck { submission_id, submission: submission@ }
            },
            Stage::AwaitingTestCases { submission_id, submission } => {
                LaneState::AwaitingTestCases { submission_id, submission: submission@ }
            },
            Stage::AwaitingLanguage { submission_id, submission, test_cases } => {
                LaneState::AwaitingLanguage {
                    submission_id,
                    submission: submission@,
                    test_cases: test_cases.deep_view(),
                }
            },
            Stage::AwaitingCompile { run } => LaneState::AwaitingCompile { run: run@ },
            Stage::AwaitingRun { run } => LaneState::AwaitingRun { run: run@ },
            Stage::AwaitingAttemptLog { run } => LaneState::AwaitingAttemptLog { run: run@ },
            Stage::AwaitingFailureLog { submission_id, message } => LaneState::AwaitingFailureLog {
                submission_id,
                message: message@,
            },
            Stage::AwaitingStatus { result } => LaneState::AwaitingStatus {
                result: result_view(result),
            },
            Stage::Finished { result } => LaneState::Finished { result: result_view(result) },
        }
    }
}

impl LaneError {
    /// The text of the reason.
    pub fn message(&self) -> (text: String)
        ensures
            text@ == error_text(self@),
    {
        match self {
            LaneError::SubmissionNotFound => String::from_str(
                "Service error: Not found: Submission not found",
            ),
            LaneError::Store(detail) => joined("Database connection error: ", detail.as_str()),
            LaneError::UnexpectedEvent => String::from_str("Internal server error"),
        }
    }
}

impl Clone for LaneError {
    fn clone(&self) -> (r: Self)
        ensures
            r == *self,
    {
        match self {
            LaneError::SubmissionNotFound => LaneError::SubmissionNotFound,
            LaneError::Store(detail) => LaneError::Store(detail.clone()),
            LaneError::UnexpectedEvent => LaneError::UnexpectedEvent,
        }
    }
}

/// A copy of the way a lane ended.
fn clone_result(result: &LaneResult) -> (r: LaneResult)
    ensures
        r == *result,
{
    match result {
        Ok(unit) => Ok(*unit),
        Err(error) => Err(error.clone()),
    }
}

/// The lane ends with `result`.
fn halt(result: LaneResult) -> (r: (JudgeLane, LaneAction))
    ensures
        (r.0@, r.1@) == halted(result_view(result)),
{
    let copy = clone_result(&result);
    (JudgeLane { stage: Stage::Finished { result } }, LaneAction::Finish(copy))
}

/// The lane ends because the event does not answer what it asked for.
fn halt_on_stray() -> (r: (JudgeLane, LaneAction))
    ensures
        (r.0@, r.1@) == stray(),
{
    halt(Err(LaneError::UnexpectedEvent))
}

/// The lane failed before it judged anything.
fn report(submission_id: Uuid, error: LaneError) -> (r: (JudgeLane, LaneAction))
    ensures
        (r.0@, r.1@) == reported(submission_id, error@),
{
    let text = error.message();
    let message = joined("Judge system error: ", text.as_str());
    (
        JudgeLane { stage: Stage::AwaitingStatus { result: Err(error) } },
        LaneAction::UpdateStatus(failure_status(submission_id, message)),
    )
}

/// Judging fails before any attempt.
fn refuse(submission_id: Uuid, language: &str, message: String) -> (r: (JudgeLane, LaneAction))
    ensures
        (r.0@, r.1@) == refused(submission_id, language@, message@),
{
    let entry = failure_log(submission_id, language, message.as_str());
    (
        JudgeLane { stage: Stage::AwaitingFailureLog { submission_id, message } },
        LaneAction::RecordLog(entry),
    )
}

/// The run stage is asked to attempt the test case in turn.
fn attempt(run: Progress) -> (r: (JudgeLane, LaneAction))
    requires
        run.next < run.test_cases.len(),
        run.verdict.passed_tests <= run.next,
    ensures
        (r.0@, r.1@) == attempting(run@),
{
    let command = run.command.clone();
    let input = run.test_cases[run.next].input_data.clone();
    let time_limit = run.time_limit;
    assert(run.test_cases.deep_view()[run.next as int] == run.test_cases[run.next as int]@);
    (JudgeLane { stage: Stage::AwaitingRun { run } }, LaneAction::Run { command, input, time_limit })
}

/// The attempts are over.
fn conclude(run: Progress) -> (r: (JudgeLane, LaneAction))
    ensures
        (r.0@, r.1@) == concluding(run@),
{
    let update = run.verdict.final_status(run.submission_id);
    (JudgeLane { stage: Stage::AwaitingStatus { result: Ok(()) } }, LaneAction::UpdateStatus(update))
}

/// The process layer failed during the attempt in turn.
fn break_attempt(run: Progress, detail: &str) -> (r: (JudgeLane, LaneAction))
    requires
        run.next < run.test_cases.len(),
        run.verdict.passed_tests <= run.next,
    ensures
        (r.0@, r.1@) == broken_attempt(run@, detail@),
{
    let mut run = run;
    let message = joined("Execution error: Judge error: System error: ", detail);
    let entry = failure_log(run.submission_id, run.language.as_str(), message.as_str());
    run.verdict.record_failure(message);
    (JudgeLane { stage: Stage::AwaitingAttemptLog { run } }, LaneAction::RecordLog(entry))
}

impl JudgeLane {
    /// Once the test cases are listed there is at least one; in the stages
    /// that attempt them, one is in turn and no more have passed than were
    /// attempted.
    #[verifier::type_invariant]
    spec fn well_formed(self) -> bool {
        match self.stage {
            Stage::AwaitingLanguage { test_cases, .. } => test_cases.len() > 0,
            Stage::AwaitingCompile { run } => {
                &&& run.next < run.test_cases.len()
                &&& run.verdict.passed_tests <= run.next
            },
            Stage::AwaitingRun { run } => {
                &&& run.next < run.test_cases.len()
                &&& run.verdict.passed_tests <= run.next
            },
            Stage::AwaitingAttemptLog { run } => {
                &&& run.next < run.test_cases.len()
                &&& run.verdict.passed_tests <= run.next + 1
            },
            _ => true,
        }
    }

    /// Starts the lane of a submission: it first asks for the submission.
    pub fn start(submission_id: Uuid) -> (r: (JudgeLane, LaneAction))
        ensures
            r.0@ == initial_state(submission_id),
            r.1@ == (LaneActionView::LoadSubmission { submission_id }),
    {
        (
            JudgeLane { stage: Stage::AwaitingSubmission { submission_id } },
            LaneAction::LoadSubmission { submission_id },
        )
    }

    /// Whether the lane has ended.
    pub fn is_finished(&self) -> (done: bool)
        ensures
            done == (self@ is Finished),
    {
        match &self.stage {
            Stage::Finished { .. } => true,
            _ => false,
        }
    }

    /// Moves the lane on by one event and says what to do next. Every event
    /// is taken in every state: one that does not answer what the lane asked
    /// for ends it.
    pub fn step(self, event: LaneEvent) -> (r: (JudgeLane, LaneAction))
        ensures
            (r.0@, r.1@) == step_of(self@, event@),
    {
        proof {
            use_type_invariant(&self);
        }
        let JudgeLane { stage } = self;
        match stage {
            Stage::AwaitingSubmission { submission_id } => match event {
                LaneEvent::SubmissionLoaded(Some(submission)) => {
                    let name = submission.language_id.clone();
                    (
                        JudgeLane {
                            stage: Stage::AwaitingLanguageCheck { submission_id, submission },
                        },
                        LaneAction::CheckLanguage { name },
                    )
                },
                LaneEvent::SubmissionLoaded(None) => report(
                    submission_id,
                    LaneError::SubmissionNotFound,
                ),
                LaneEvent::StoreFailed(detail) => report(submission_id, LaneError::Store(detail)),
                _ => halt_on_stray(),
            },
            Stage::AwaitingLanguageCheck { submission_id, submission } => match event {
                LaneEvent::LanguageChecked(true) => {
                    let problem_id = submission.problem_id;
                    (
                        JudgeLane { stage: Stage::AwaitingTestCases { submission_id, submission } },
                        LaneAction::LoadTestCases { problem_id, include_hidden: true },
                    )
                },
                LaneEvent::LanguageChecked(false) => {
                    let message = joined("Unsupported language: ", submission.language_id.as_str());
                    refuse(submission_id, submission.language_id.as_str(), message)
                },
                LaneEvent::StoreFailed(detail) => report(submission_id, LaneError::Store(detail)),
                _ => halt_on_stray(),
            },
            Stage::AwaitingTestCases { submission_id, submission } => match event {
                LaneEvent::TestCasesLoaded(test_cases) => {
                    if test_cases.len() == 0 {
                        let message = String::from_str("No test cases found for this problem");
                        refuse(submission_id, submission.language_id.as_str(), message)
                    } else {
                        let name = submission.language_id.clone();
                        (
                            JudgeLane {
                                stage: Stage::AwaitingLanguage {
                                    submission_id,
                                    submission,
                                    test_cases,
                                },
                            },
                            LaneAction::LoadLanguage { name },
                        )
                    }
                },
                LaneEvent::StoreFailed(detail) => report(submission_id, LaneError::Store(detail)),
                _ => halt_on_stray(),
            },
            Stage::AwaitingLanguage { submission_id, submission, test_cases } => match event {
                LaneEvent::LanguageLoaded(Some(language)) => {
                    let file_name = source_file_name(language.file_extension.as_str());
                    let config = LanguageConfig::from(language);
                    let command = clone_text(&config.compile_command);
                    let run = Progress {
                        submission_id,
                        language: submission.language_id,
                        test_cases,
                        command: config.execute_command,
                        time_limit: config.time_limit,
                        next: 0,
                        verdict: VerdictAggregator::new(),
                    };
                    (
                        JudgeLane { stage: Stage::AwaitingCompile { run } },
                        LaneAction::Compile { file_name, code: submission.code, command },
                    )
                },
                LaneEvent::LanguageLoaded(None) => {
                    let message = joined("Unsupported language: ", submission.language_id.as_str());
                    refuse(submission_id, submission.language_id.as_str(), message)
                },
                LaneEvent::StoreFailed(detail) => report(submission_id, LaneError::Store(detail)),
                _ => halt_on_stray(),
            },
            Stage::AwaitingCompile { run } => match event {
                LaneEvent::Compiled { succeeded, stderr } => {
                    match compile_failure(succeeded, &stderr) {
                        None => attempt(run),
                        Some(message) => (
                            JudgeLane { stage: Stage::AwaitingStatus { result: Ok(()) } },
                            LaneAction::UpdateStatus(failure_status(run.submission_id, message)),
                        ),
                    }
                },
                LaneEvent::SystemError(detail) => break_attempt(run, detail.as_str()),
                _ => halt_on_stray(),
            },
            Stage::AwaitingRun { run } => match event {
                LaneEvent::Ran(outcome) => {
                    let mut run = run;
                    let out = ExecutionOutput::from_outcome(&outcome, run.time_limit);
                    assert(run.test_cases.deep_view()[run.next as int]
                        == run.test_cases[run.next as int]@);
                    let verdict = run.verdict.record(
                        run.test_cases[run.next].expected_output.as_str(),
                        &out,
                    );
                    let entry = attempt_log(
                        run.submission_id,
                        run.language.as_str(),
                        run.next + 1,
                        verdict,
                        &out,
                    );
                    (
                        JudgeLane { stage: Stage::AwaitingAttemptLog { run } },
                        LaneAction::RecordLog(entry),
                    )
                },
                LaneEvent::SystemError(detail) => break_attempt(run, detail.as_str()),
                _ => halt_on_stray(),
            },
            Stage::AwaitingAttemptLog { run } => match event {
                LaneEvent::LogRecorded => {
                    if run.verdict.continues() && run.next + 1 < run.test_cases.len() {
                        let mut run = run;
                        run.next = run.next + 1;
                        attempt(run)
                    } else {
                        conclude(run)
                    }
                },
                LaneEvent::StoreFailed(detail) => halt(Err(LaneError::Store(detail))),
                _ => halt_on_stray(),
            },
            Stage::AwaitingFailureLog { submission_id, message } => match event {
                LaneEvent::LogRecorded => (
                    JudgeLane { stage: Stage::AwaitingStatus { result: Ok(()) } },
                    LaneAction::UpdateStatus(failure_status(submission_id, message)),
                ),
                LaneEvent::StoreFailed(detail) => halt(Err(LaneError::Store(detail))),
                _ => halt_on_stray(),
            },
            Stage::AwaitingStatus { result } => match event {
                LaneEvent::StatusUpdated => halt(result),
                LaneEvent::StoreFailed(detail) => match result {
                    Ok(_) => halt(Err(LaneError::Store(detail))),
                    Err(error) => halt(Err(error)),
                },
                _ => halt_on_stray(),
            },
            Stage::Finished { result } => halt(result),
        }
    }
}

} // verus!
