//! The rules for submissions, and the counts that are drawn from them.

use crate::errors::service::ServiceError;
use crate::models::submission::CreateSubmissionRequest;
use crate::models::submission::Submission;
use crate::models::submission::SubmissionStatus;
use crate::models::submission::SubmissionView;
use crate::services::rules::decides;
use crate::services::rules::refuse;
use crate::text::blank;
use crate::text::byte_length;
use crate::text::is_blank;
use vstd::prelude::*;

verus! {

/// The largest source of a submission, in bytes.
pub const MAX_CODE_BYTES: usize = 65536;

/// What is wrong with the source of a new submission, if anything: it is
/// blank, or it is too large.
pub open spec fn new_submission_fault(code: Seq<char>) -> Option<Seq<char>> {
    if blank(code) {
        Some("Code cannot be empty"@)
    } else if byte_length(code) > MAX_CODE_BYTES {
        Some("Code size exceeds limit"@)
    } else {
        None
    }
}

/// Holds a new submission to the rules.
pub fn validate_new_submission(request: &CreateSubmissionRequest) -> (result: Result<
    (),
    ServiceError,
>)
    ensures
        decides(result, new_submission_fault(request.code@)),
{
    if is_blank(request.code.as_str()) {
        refuse("Code cannot be empty")
    } else if request.code.as_str().len() > MAX_CODE_BYTES {
        refuse("Code size exceeds limit")
    } else {
        Ok(())
    }
}

/// The number of submissions with the given verdict.
pub open spec fn count_of(submissions: Seq<SubmissionView>, status: SubmissionStatus) -> nat {
    submissions.filter(|s: SubmissionView| s.status == status).len()
}

/// Counts the submissions with the given verdict.
pub fn count_with_status(submissions: &Vec<Submission>, status: SubmissionStatus) -> (count: usize)
    ensures
        count == count_of(submissions.deep_view(), status),
        count <= submissions.len(),
{
    let mut count: usize = 0;
    let mut i: usize = 0;
    proof {
        reveal(Seq::filter);
        assert(submissions.deep_view().subrange(0, 0) =~= Seq::<SubmissionView>::empty());
    }
    while i < submissions.len()
        invariant
            i <= submissions.len(),
            count <= i,
            count == count_of(submissions.deep_view().subrange(0, i as int), status),
        decreases submissions.len() - i,
    {
        proof {
            reveal(Seq::filter);
            let longer = submissions.deep_view().subrange(0, i + 1);
            assert(longer.drop_last() =~= submissions.deep_view().subrange(0, i as int));
            assert(longer.last() == submissions[i as int]@);
        }
        if submissions[i].status == status {
            count += 1;
        }
        i += 1;
    }
    assert(submissions.deep_view().subrange(0, submissions.len() as int)
        =~= submissions.deep_view());
    count
}

} // verus!
