//! The rules for problems.

use crate::errors::service::ServiceError;
use crate::models::problem::CreateProblemRequest;
use crate::models::problem::Problem;
use crate::services::rules::decides;
use crate::services::rules::refuse;
use crate::text::blank;
use crate::text::is_blank;
use crate::text::is_slug;
use crate::text::slug;
use uuid::Uuid;
use vstd::prelude::*;

verus! {

/// What is wrong with the texts of a new problem, if anything: the first of
/// its title, slug and description that is blank.
pub open spec fn new_problem_fault(
    title: Seq<char>,
    slug: Seq<char>,
    description: Seq<char>,
) -> Option<Seq<char>> {
    if blank(title) {
        Some("Title cannot be empty"@)
    } else if blank(slug) {
        Some("Slug cannot be empty"@)
    } else if blank(description) {
        Some("Description cannot be empty"@)
    } else {
        None
    }
}

/// What is wrong with the form of a slug, if anything.
pub open spec fn slug_fault(text: Seq<char>) -> Option<Seq<char>> {
    if slug(text) {
        None
    } else {
        Some("Slug can only contain alphanumeric characters and hyphens"@)
    }
}

/// Holds the texts of a new problem to the rules. The form of the slug is
/// checked by [`validate_slug`], once it is known that the slug is free.
pub fn validate_new_problem(request: &CreateProblemRequest) -> (result: Result<(), ServiceError>)
    ensures
        decides(result, new_problem_fault(request.title@, request.slug@, request.description@)),
{
    if is_blank(request.title.as_str()) {
        refuse("Title cannot be empty")
    } else if is_blank(request.slug.as_str()) {
        refuse("Slug cannot be empty")
    } else if is_blank(request.description.as_str()) {
        refuse("Description cannot be empty")
    } else {
        Ok(())
    }
}

/// Holds the form of a slug to the rules.
pub fn validate_slug(text: &str) -> (result: Result<(), ServiceError>)
    ensures
        decides(result, slug_fault(text@)),
{
    if is_slug(text) {
        Ok(())
    } else {
        refuse("Slug can only contain alphanumeric characters and hyphens")
    }
}

/// Holds a new title to the rules: it may not be blank.
pub fn validate_title(title: &str) -> (result: Result<(), ServiceError>)
    ensures
        decides(
            result,
            if blank(title@) {
                Some("Title cannot be empty"@)
            } else {
                None
            },
        ),
{
    if is_blank(title) {
        refuse("Title cannot be empty")
    } else {
        Ok(())
    }
}

/// Holds a new slug to the first of its rules: it may not be blank.
pub fn validate_slug_present(text: &str) -> (result: Result<(), ServiceError>)
    ensures
        decides(
            result,
            if blank(text@) {
                Some("Slug cannot be empty"@)
            } else {
                None
            },
        ),
{
    if is_blank(text) {
        refuse("Slug cannot be empty")
    } else {
        Ok(())
    }
}

/// Holds a new description to the rules: it may not be blank.
pub fn validate_description(description: &str) -> (result: Result<(), ServiceError>)
    ensures
        decides(
            result,
            if blank(description@) {
                Some("Description cannot be empty"@)
            } else {
                None
            },
        ),
{
    if is_blank(description) {
        refuse("Description cannot be empty")
    } else {
        Ok(())
    }
}

/// Holds a search query to the rules: it may not be blank.
pub fn validate_search_query(query: &str) -> (result: Result<(), ServiceError>)
    ensures
        decides(
            result,
            if blank(query@) {
                Some("Search query cannot be empty"@)
            } else {
                None
            },
        ),
{
    if is_blank(query) {
        refuse("Search query cannot be empty")
    } else {
        Ok(())
    }
}

/// Whether a slug that a problem is to take is taken by another problem:
/// it is where some problem has it and that problem is not the one that
/// changes.
pub fn slug_taken_by_other(holder: &Option<Problem>, id: Uuid) -> (taken: bool)
    ensures
        taken == (holder matches Some(problem) && problem.id != id),
{
    match holder {
        Some(problem) => problem.id != id,
        None => false,
    }
}

/// The refusal of a slug that is taken.
pub fn slug_exists() -> (error: ServiceError)
    ensures
        error matches ServiceError::ConflictError(m) && m@
            == "A problem with this slug already exists"@,
{
    ServiceError::ConflictError(String::from_str("A problem with this slug already exists"))
}

} // verus!
