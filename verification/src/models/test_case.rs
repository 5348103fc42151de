//! Test cases: an input and the output expected for it.

use uuid::Uuid;
use vstd::prelude::*;

verus! {

/// An input and the expected output, attached to a problem. `created_at`
/// counts microseconds since the Unix epoch.
#[derive(Debug)]
pub struct TestCase {
    pub id: Uuid,
    pub problem_id: Uuid,
    pub input_data: String,
    pub expected_output: String,
    pub is_sample: bool,
    pub created_at: i64,
}

/// A test case with its texts as sequences of characters.
pub struct TestCaseView {
    pub id: Uuid,
    pub problem_id: Uuid,
    pub input_data: Seq<char>,
    pub expected_output: Seq<char>,
    pub is_sample: bool,
    pub created_at: i64,
}

impl View for TestCase {
    type V = TestCaseView;

    open spec fn view(&self) -> TestCaseView {
        TestCaseView {
            id: self.id,
            problem_id: self.problem_id,
            input_data: self.input_data@,
            expected_output: self.expected_output@,
            is_sample: self.is_sample,
            created_at: self.created_at,
        }
    }
}

impl DeepView for TestCase {
    type V = TestCaseView;

    open spec fn deep_view(&self) -> TestCaseView {
        self@
    }
}

impl Clone for TestCase {
    fn clone(&self) -> (r: Self)
        ensures
            r == *self,
    {
        TestCase {
            id: self.id,
            problem_id: self.problem_id,
            input_data: self.input_data.clone(),
            expected_output: self.expected_output.clone(),
            is_sample: self.is_sample,
            created_at: self.created_at,
        }
    }
}

/// What a new test case is made of.
#[derive(Debug)]
pub struct CreateTestCaseRequest {
    pub problem_id: Uuid,
    pub input_data: String,
    pub expected_output: String,
    pub is_sample: bool,
}

impl Clone for CreateTestCaseRequest {
    fn clone(&self) -> (r: Self)
        ensures
            r == *self,
    {
        CreateTestCaseRequest {
            problem_id: self.problem_id,
            input_data: self.input_data.clone(),
            expected_output: self.expected_output.clone(),
            is_sample: self.is_sample,
        }
    }
}

/// The fields of a test case that a request replaces.
#[derive(Debug, Clone)]
pub struct UpdateTestCaseRequest {
    pub input_data: Option<String>,
    pub expected_output: Option<String>,
    pub is_sample: Option<bool>,
}

} // verus!
