use judge_engine::judge::execution::ExecutionOutput;
use judge_engine::judge::verdict::attempt_log;
use judge_engine::judge::verdict::attempt_message;
use judge_engine::judge::verdict::attempt_verdict;
use judge_engine::judge::verdict::failure_log;
use judge_engine::judge::verdict::failure_status;
use judge_engine::judge::verdict::VerdictAggregator;
use judge_engine::models::submission::SubmissionStatus;
use uuid::Uuid;

fn output(stdout: &str, stderr: &str, time: i32, memory: i32, exit_code: i32) -> ExecutionOutput {
    ExecutionOutput {
        stdout: stdout.to_string(),
        stderr: stderr.to_string(),
        execution_time: time,
        memory_used: memory,
        exit_code,
    }
}

#[test]
fn a_matching_output_is_accepted() {
    let out = output("42\r\n", "", 5, 1024, 0);
    assert_eq!(attempt_verdict("42", &out), SubmissionStatus::Accepted);
    assert_eq!(attempt_message(SubmissionStatus::Accepted, &out), None);
}

#[test]
fn a_mismatch_is_a_wrong_answer() {
    let out = output("41", "", 5, 1024, 0);
    assert_eq!(attempt_verdict("42", &out), SubmissionStatus::WrongAnswer);
    assert_eq!(
        attempt_message(SubmissionStatus::WrongAnswer, &out),
        Some("Wrong answer".to_string())
    );
}

#[test]
fn a_failure_code_with_the_marker_is_a_timeout() {
    let out = ExecutionOutput::timed_out(2000);
    assert_eq!(attempt_verdict("42", &out), SubmissionStatus::TimeLimitExceeded);
    assert_eq!(
        attempt_message(SubmissionStatus::TimeLimitExceeded, &out),
        Some("Time limit exceeded".to_string())
    );
    let out = output("42", "killed: Time limit exceeded after 2s", 5, 0, 1);
    assert_eq!(attempt_verdict("42", &out), SubmissionStatus::TimeLimitExceeded);
}

#[test]
fn a_failure_code_without_the_marker_is_a_runtime_error() {
    let out = output("42", "Traceback: boom", 5, 1024, 1);
    assert_eq!(attempt_verdict("42", &out), SubmissionStatus::RuntimeError);
    assert_eq!(
        attempt_message(SubmissionStatus::RuntimeError, &out),
        Some("Traceback: boom".to_string())
    );
}

#[test]
fn a_silent_failure_is_named_by_its_exit_code() {
    let out = output("", "", 5, 1024, 139);
    assert_eq!(attempt_verdict("", &out), SubmissionStatus::RuntimeError);
    assert_eq!(
        attempt_message(SubmissionStatus::RuntimeError, &out),
        Some("Runtime error (exit code: 139)".to_string())
    );
    let out = output("", "", 5, 1024, -1);
    assert_eq!(
        attempt_message(SubmissionStatus::RuntimeError, &out),
        Some("Runtime error (exit code: -1)".to_string())
    );
}

#[test]
fn the_marker_counts_only_with_a_failure_code() {
    let out = output("42", "Time limit exceeded", 5, 1024, 0);
    assert_eq!(attempt_verdict("42", &out), SubmissionStatus::Accepted);
}

#[test]
fn a_new_aggregator_is_optimistic() {
    let a = VerdictAggregator::new();
    assert_eq!(a.status, SubmissionStatus::Accepted);
    assert_eq!(a.error_message, None);
    assert_eq!(a.passed_tests, 0);
    assert_eq!(a.max_execution_time, 0);
    assert_eq!(a.max_memory_used, 0);
    assert!(a.continues());
}

#[test]
fn passes_keep_the_state_and_raise_the_maxima() {
    let mut a = VerdictAggregator::new();
    assert_eq!(a.record("1", &output("1", "", 30, 1024, 0)), SubmissionStatus::Accepted);
    assert_eq!(a.record("2", &output("2", "", 10, 2048, 0)), SubmissionStatus::Accepted);
    assert_eq!(a.record("3", &output("3", "", 20, 512, 0)), SubmissionStatus::Accepted);
    assert_eq!(a.status, SubmissionStatus::Accepted);
    assert_eq!(a.error_message, None);
    assert_eq!(a.passed_tests, 3);
    assert_eq!(a.max_execution_time, 30);
    assert_eq!(a.max_memory_used, 2048);
    assert!(a.continues());
}

#[test]
fn a_failure_sets_the_verdict_and_stops() {
    let mut a = VerdictAggregator::new();
    a.record("1", &output("1", "", 30, 1024, 0));
    assert_eq!(a.record("2", &output("3", "", 40, 1024, 0)), SubmissionStatus::WrongAnswer);
    assert_eq!(a.status, SubmissionStatus::WrongAnswer);
    assert_eq!(a.error_message.as_deref(), Some("Wrong answer"));
    assert_eq!(a.passed_tests, 1);
    assert_eq!(a.max_execution_time, 40);
    assert!(!a.continues());
}

#[test]
fn a_verdict_once_set_stays() {
    let mut a = VerdictAggregator::new();
    a.record("1", &output("", "boom", 5, 1024, 2));
    assert_eq!(a.status, SubmissionStatus::RuntimeError);
    assert_eq!(a.record("2", &output("3", "", 50, 4096, 0)), SubmissionStatus::WrongAnswer);
    assert_eq!(a.status, SubmissionStatus::RuntimeError);
    assert_eq!(a.error_message.as_deref(), Some("boom"));
    assert_eq!(a.record("2", &output("2", "", 60, 1024, 0)), SubmissionStatus::Accepted);
    assert_eq!(a.status, SubmissionStatus::RuntimeError);
    assert_eq!(a.passed_tests, 1);
    assert_eq!(a.max_execution_time, 60);
    assert_eq!(a.max_memory_used, 4096);
}

#[test]
fn a_broken_process_layer_is_a_runtime_error() {
    let mut a = VerdictAggregator::new();
    a.record_failure("Execution error: no shell".to_string());
    assert_eq!(a.status, SubmissionStatus::RuntimeError);
    assert_eq!(a.error_message.as_deref(), Some("Execution error: no shell"));
    a.record_failure("again".to_string());
    assert_eq!(a.error_message.as_deref(), Some("Execution error: no shell"));
}

#[test]
fn zero_measurements_are_absent_in_the_final_status() {
    let id = Uuid::from_u128(7);
    let a = VerdictAggregator::new();
    let update = a.final_status(id);
    assert_eq!(update.submission_id, id);
    assert_eq!(update.status, SubmissionStatus::Accepted);
    assert_eq!(update.execution_time, None);
    assert_eq!(update.memory_used, None);
    assert_eq!(update.error_message, None);
    let mut a = VerdictAggregator::new();
    a.record("1", &output("2", "", 12, 0, 0));
    let update = a.final_status(id);
    assert_eq!(update.status, SubmissionStatus::WrongAnswer);
    assert_eq!(update.execution_time, Some(12));
    assert_eq!(update.memory_used, None);
    assert_eq!(update.error_message.as_deref(), Some("Wrong answer"));
}

#[test]
fn negative_measurements_never_become_the_maximum() {
    let mut a = VerdictAggregator::new();
    a.record("1", &output("1", "", -5, -1, 0));
    assert_eq!(a.max_execution_time, 0);
    assert_eq!(a.max_memory_used, 0);
    let update = a.final_status(Uuid::nil());
    assert_eq!(update.execution_time, None);
    assert_eq!(update.memory_used, None);
}

#[test]
fn the_record_of_a_pass_carries_no_message() {
    let id = Uuid::from_u128(9);
    let out = output("42", "", 11, 1024, 0);
    let log = attempt_log(id, "python", 1, SubmissionStatus::Accepted, &out);
    assert_eq!(log.submission_id, id);
    assert_eq!(log.language, "python");
    assert_eq!(log.execution_time, Some(11));
    assert_eq!(log.memory_used, Some(1024));
    assert_eq!(log.exit_code, Some(0));
    assert_eq!(log.stdout.as_deref(), Some("42"));
    assert_eq!(log.stderr, None);
    assert_eq!(log.status, SubmissionStatus::Accepted);
    assert_eq!(log.error_message, None);
}

#[test]
fn the_record_of_a_wrong_answer_names_the_test_case() {
    let out = output("41", "note", 11, 1024, 0);
    let log = attempt_log(Uuid::nil(), "c", 12, SubmissionStatus::WrongAnswer, &out);
    assert_eq!(log.stdout.as_deref(), Some("41"));
    assert_eq!(log.stderr.as_deref(), Some("note"));
    assert_eq!(log.status, SubmissionStatus::WrongAnswer);
    assert_eq!(log.error_message.as_deref(), Some("Test case 12 failed"));
}

#[test]
fn the_record_of_a_failed_run_carries_its_message() {
    let out = ExecutionOutput::timed_out(3000);
    let log = attempt_log(Uuid::nil(), "c", 2, SubmissionStatus::TimeLimitExceeded, &out);
    assert_eq!(log.execution_time, Some(3000));
    assert_eq!(log.memory_used, Some(0));
    assert_eq!(log.exit_code, Some(124));
    assert_eq!(log.stdout.as_deref(), Some(""));
    assert_eq!(log.stderr.as_deref(), Some("Time limit exceeded"));
    assert_eq!(log.status, SubmissionStatus::TimeLimitExceeded);
    assert_eq!(log.error_message.as_deref(), Some("Time limit exceeded"));
    let out = output("", "", 3, 1024, 2);
    let log = attempt_log(Uuid::nil(), "c", 2, SubmissionStatus::RuntimeError, &out);
    assert_eq!(log.status, SubmissionStatus::RuntimeError);
    assert_eq!(log.error_message.as_deref(), Some("Runtime error (exit code: 2)"));
}

#[test]
fn the_record_of_a_refusal_is_a_runtime_error() {
    let id = Uuid::from_u128(3);
    let log = failure_log(id, "cobol", "Unsupported language: cobol");
    assert_eq!(log.submission_id, id);
    assert_eq!(log.language, "cobol");
    assert_eq!(log.execution_time, None);
    assert_eq!(log.memory_used, None);
    assert_eq!(log.exit_code, None);
    assert_eq!(log.stdout, None);
    assert_eq!(log.stderr.as_deref(), Some("Unsupported language: cobol"));
    assert_eq!(log.status, SubmissionStatus::RuntimeError);
    assert_eq!(log.error_message.as_deref(), Some("Unsupported language: cobol"));
}

#[test]
fn the_status_of_a_refusal_is_a_runtime_error() {
    let id = Uuid::from_u128(3);
    let update = failure_status(id, "No test cases found for this problem".to_string());
    assert_eq!(update.submission_id, id);
    assert_eq!(update.status, SubmissionStatus::RuntimeError);
    assert_eq!(update.execution_time, None);
    assert_eq!(update.memory_used, None);
    assert_eq!(update.error_message.as_deref(), Some("No test cases found for this problem"));
}
