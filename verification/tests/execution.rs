use judge_engine::judge::execution::compile_failure;
use judge_engine::judge::execution::source_file_name;
use judge_engine::judge::execution::ExecutionOutput;
use judge_engine::judge::execution::RunOutcome;
use judge_engine::judge::execution::MISSING_EXIT_CODE;
use judge_engine::judge::execution::REPORTED_MEMORY_KB;
use judge_engine::judge::execution::TIMEOUT_EXIT_CODE;

#[test]
fn a_timeout_reports_the_limit_and_the_marker() {
    let out = ExecutionOutput::timed_out(3000);
    assert_eq!(out.stdout, "");
    assert_eq!(out.stderr, "Time limit exceeded");
    assert_eq!(out.execution_time, 3000);
    assert_eq!(out.memory_used, 0);
    assert_eq!(out.exit_code, 124);
    assert_eq!(TIMEOUT_EXIT_CODE, 124);
}

#[test]
fn a_completed_run_reports_what_the_process_left() {
    let out = ExecutionOutput::completed(&b"42\n".to_vec(), &b"warning".to_vec(), 17, Some(3));
    assert_eq!(out.stdout, "42\n");
    assert_eq!(out.stderr, "warning");
    assert_eq!(out.execution_time, 17);
    assert_eq!(out.memory_used, 1024);
    assert_eq!(out.exit_code, 3);
    assert_eq!(REPORTED_MEMORY_KB, 1024);
}

#[test]
fn a_run_without_exit_code_reports_minus_one() {
    let out = ExecutionOutput::completed(&Vec::new(), &Vec::new(), 0, None);
    assert_eq!(out.exit_code, -1);
    assert_eq!(MISSING_EXIT_CODE, -1);
    assert_eq!(out.stdout, "");
    assert_eq!(out.stderr, "");
    assert_eq!(out.execution_time, 0);
}

#[test]
fn output_is_decoded_as_utf8_with_replacement() {
    let stdout: Vec<u8> = vec![0x68, 0xC3, 0xA9, 0xFF, 0x21];
    let out = ExecutionOutput::completed(&stdout, &vec![0xE2, 0x82], 1, Some(0));
    assert_eq!(out.stdout, "h\u{e9}\u{FFFD}!");
    assert_eq!(out.stdout.chars().count(), 4);
    assert_eq!(out.stderr, "\u{FFFD}");
}

#[test]
fn elapsed_time_is_cut_to_32_bits() {
    let out = ExecutionOutput::completed(&Vec::new(), &Vec::new(), 2147483647, Some(0));
    assert_eq!(out.execution_time, i32::MAX);
    let out = ExecutionOutput::completed(&Vec::new(), &Vec::new(), 4294967296 + 5, Some(0));
    assert_eq!(out.execution_time, 5);
    let out = ExecutionOutput::completed(&Vec::new(), &Vec::new(), 2147483648, Some(0));
    assert_eq!(out.execution_time, i32::MIN);
}

#[test]
fn an_outcome_is_reported_under_the_limit_of_the_run() {
    let out = ExecutionOutput::from_outcome(&RunOutcome::TimedOut, 5000);
    assert_eq!(out.execution_time, 5000);
    assert_eq!(out.exit_code, 124);
    assert_eq!(out.stderr, "Time limit exceeded");
    let outcome = RunOutcome::Completed {
        stdout: b"ok".to_vec(),
        stderr: Vec::new(),
        elapsed_millis: 12,
        exit_code: Some(0),
    };
    let out = ExecutionOutput::from_outcome(&outcome, 5000);
    assert_eq!(out.stdout, "ok");
    assert_eq!(out.execution_time, 12);
    assert_eq!(out.exit_code, 0);
    assert_eq!(out.memory_used, 1024);
}

#[test]
fn the_source_file_is_named_solution() {
    assert_eq!(source_file_name(".py"), "solution.py");
    assert_eq!(source_file_name(".rs"), "solution.rs");
    assert_eq!(source_file_name(""), "solution");
}

#[test]
fn a_compiler_that_succeeds_leaves_no_error() {
    assert_eq!(compile_failure(true, &b"warning: unused".to_vec()), None);
}

#[test]
fn a_compiler_that_fails_leaves_its_error_output() {
    assert_eq!(
        compile_failure(false, &b"solution.c:1: error".to_vec()),
        Some("solution.c:1: error".to_string())
    );
    assert_eq!(compile_failure(false, &Vec::new()), Some(String::new()));
    assert_eq!(compile_failure(false, &vec![0xFF]), Some("\u{FFFD}".to_string()));
}
