//! The rules for test cases.

use crate::errors::service::ServiceError;
use crate::models::test_case::CreateTestCaseRequest;
use crate::services::rules::decides;
use crate::services::rules::refuse;
use crate::text::blank;
use crate::text::byte_length;
use crate::text::is_blank;
use vstd::prelude::*;

verus! {

/// The largest input, and the largest expected output, in bytes.
pub const MAX_TEST_DATA_BYTES: usize = 1048576;

/// What is wrong with the texts of a test case, if anything: a blank input,
/// a blank expected output, an input that is too large, or an expected
/// output that is too large, in this order.
pub open spec fn test_case_fault(input_data: Seq<char>, expected_output: Seq<char>) -> Option<
    Seq<char>,
> {
    if blank(input_data) {
        Some("Input data cannot be empty"@)
    } else if blank(expected_output) {
        Some("Expected output cannot be empty"@)
    } else if byte_length(input_data) > MAX_TEST_DATA_BYTES {
        Some("Input data too large (max 1MB)"@)
    } else if byte_length(expected_output) > MAX_TEST_DATA_BYTES {
        Some("Expected output too large (max 1MB)"@)
    } else {
        None
    }
}

/// Holds the texts of a test case to the rules.
pub fn validate_test_case_format(input_data: &str, expected_output: &str) -> (result: Result<
    (),
    ServiceError,
>)
    ensures
        decides(result, test_case_fault(input_data@, expected_output@)),
{
    if is_blank(input_data) {
        refuse("Input data cannot be empty")
    } else if is_blank(expected_output) {
        refuse("Expected output cannot be empty")
    } else if input_data.len() > MAX_TEST_DATA_BYTES {
        refuse("Input data too large (max 1MB)")
    } else if expected_output.len() > MAX_TEST_DATA_BYTES {
        refuse("Expected output too large (max 1MB)")
    } else {
        Ok(())
    }
}

/// Whether all the test cases belong to the problem of the first.
pub open spec fn same_problem(test_cases: Seq<CreateTestCaseRequest>) -> bool {
    forall|i: int|
        0 <= i < test_cases.len() ==> (#[trigger] test_cases[i]).problem_id
            == test_cases[0].problem_id
}

/// What is wrong with a batch of new test cases, before their texts are
/// looked at: it is empty, or its test cases belong to several problems.
pub open spec fn batch_fault(test_cases: Seq<CreateTestCaseRequest>) -> Option<Seq<char>> {
    if test_cases.len() == 0 {
        Some("No test cases provided"@)
    } else if !same_problem(test_cases) {
        Some("All test cases must belong to the same problem"@)
    } else {
        None
    }
}

/// Holds a batch of new test cases to the rules that concern the batch.
pub fn validate_batch(test_cases: &Vec<CreateTestCaseRequest>) -> (result: Result<(), ServiceError>)
    ensures
        decides(result, batch_fault(test_cases@)),
{
    if test_cases.len() == 0 {
        return refuse("No test cases provided");
    }
    let first = test_cases[0].problem_id;
    let mut i: usize = 0;
    while i < test_cases.len()
        invariant
            i <= test_cases.len(),
            test_cases.len() > 0,
            first == test_cases@[0].problem_id,
            forall|k: int| 0 <= k < i ==> (#[trigger] test_cases@[k]).problem_id == first,
        decreases test_cases.len() - i,
    {
        if test_cases[i].problem_id != first {
            assert(!same_problem(test_cases@));
            return refuse("All test cases must belong to the same problem");
        }
        i += 1;
    }
    Ok(())
}

/// What is wrong with the texts of the first test case of a batch that has a
/// fault, if any has.
pub open spec fn first_format_fault(test_cases: Seq<CreateTestCaseRequest>) -> Option<Seq<char>>
    decreases test_cases.len(),
{
    if test_cases.len() == 0 {
        None
    } else {
        let fault = test_case_fault(
            test_cases.first().input_data@,
            test_cases.first().expected_output@,
        );
        if fault is Some {
            fault
        } else {
            first_format_fault(test_cases.drop_first())
        }
    }
}

/// The first fault among the test cases from index `from` on.
proof fn lemma_first_format_fault_from(test_cases: Seq<CreateTestCaseRequest>, from: int)
    requires
        0 <= from <= test_cases.len(),
        forall|k: int|
            0 <= k < from ==> test_case_fault(
                (#[trigger] test_cases[k]).input_data@,
                test_cases[k].expected_output@,
            ) is None,
    ensures
        first_format_fault(test_cases) == first_format_fault(
            test_cases.subrange(from, test_cases.len() as int),
        ),
    decreases from,
{
    if from == 0 {
        assert(test_cases.subrange(0, test_cases.len() as int) =~= test_cases);
    } else {
        let rest = test_cases.drop_first();
        assert forall|k: int| 0 <= k < from - 1 implies test_case_fault(
            (#[trigger] rest[k]).input_data@,
            rest[k].expected_output@,
        ) is None by {
            assert(rest[k] == test_cases[k + 1]);
        }
        lemma_first_format_fault_from(rest, from - 1);
        assert(rest.subrange(from - 1, rest.len() as int) =~= test_cases.subrange(
            from,
            test_cases.len() as int,
        ));
        assert(test_case_fault(test_cases[0].input_data@, test_cases[0].expected_output@) is None);
    }
}

/// Holds the texts of every test case of a batch to the rules, in order.
pub fn validate_batch_formats(test_cases: &Vec<CreateTestCaseRequest>) -> (result: Result<
    (),
    ServiceError,
>)
    ensures
        decides(result, first_format_fault(test_cases@)),
{
    let mut i: usize = 0;
    while i < test_cases.len()
        invariant
            i <= test_cases.len(),
            forall|k: int|
                0 <= k < i ==> test_case_fault(
                    (#[trigger] test_cases@[k]).input_data@,
                    test_cases@[k].expected_output@,
                ) is None,
        decreases test_cases.len() - i,
    {
        let checked = validate_test_case_format(
            test_cases[i].input_data.as_str(),
            test_cases[i].expected_output.as_str(),
        );
        if checked.is_err() {
            proof {
                lemma_first_format_fault_from(test_cases@, i as int);
                let rest = test_cases@.subrange(i as int, test_cases.len() as int);
                assert(rest.first() == test_cases@[i as int]);
            }
            return checked;
        }
        i += 1;
    }
    proof {
        lemma_first_format_fault_from(test_cases@, test_cases.len() as int);
        assert(test_cases@.subrange(test_cases.len() as int, test_cases.len() as int).len() == 0);
    }
    Ok(())
}

} // verus!
