//! The rules for tags.

use crate::errors::service::ServiceError;
use crate::models::tag::CreateTagRequest;
use crate::services::rules::decides;
use crate::services::rules::quote;
use crate::services::rules::quoted;
use crate::services::rules::refuse;
use crate::text::blank;
use crate::text::identifier;
use crate::text::is_blank;
use crate::text::is_identifier;
use vstd::prelude::*;

verus! {

/// What is wrong with the name of a new tag, if anything: it is blank, or
/// it is no identifier.
pub open spec fn new_tag_fault(name: Seq<char>) -> Option<Seq<char>> {
    if blank(name) {
        Some("Tag name cannot be empty"@)
    } else if !identifier(name) {
        Some(
            "Tag name must be lowercase and contain only alphanumeric characters, hyphens, or underscores"@,
        )
    } else {
        None
    }
}

/// What is wrong with the number of popular tags asked for, if anything.
pub open spec fn popular_limit_fault(limit: Option<i32>) -> Option<Seq<char>> {
    if limit is Some && limit->0 <= 0 {
        Some("Limit must be greater than 0"@)
    } else {
        None
    }
}

/// Holds a new tag to the rules.
pub fn validate_new_tag(request: &CreateTagRequest) -> (result: Result<(), ServiceError>)
    ensures
        decides(result, new_tag_fault(request.name@)),
{
    if is_blank(request.name.as_str()) {
        refuse("Tag name cannot be empty")
    } else if !is_identifier(request.name.as_str()) {
        refuse(
            "Tag name must be lowercase and contain only alphanumeric characters, hyphens, or underscores",
        )
    } else {
        Ok(())
    }
}

/// Holds the number of popular tags asked for to the rules.
pub fn validate_popular_limit(limit: Option<i32>) -> (result: Result<(), ServiceError>)
    ensures
        decides(result, popular_limit_fault(limit)),
{
    match limit {
        Some(n) => {
            if n <= 0 {
                refuse("Limit must be greater than 0")
            } else {
                Ok(())
            }
        },
        None => Ok(()),
    }
}

/// The refusal of a tag whose name is taken.
pub fn tag_exists(name: &str) -> (error: ServiceError)
    ensures
        error matches ServiceError::ConflictError(m) && m@ == quoted(
            "Tag '"@,
            name@,
            "' already exists"@,
        ),
{
    ServiceError::ConflictError(quote("Tag '", name, "' already exists"))
}

/// The refusal of a request for a tag that is not there.
pub fn tag_not_found(name: &str) -> (error: ServiceError)
    ensures
        error matches ServiceError::NotFoundError(m) && m@ == quoted(
            "Tag '"@,
            name@,
            "' not found"@,
        ),
{
    ServiceError::NotFoundError(quote("Tag '", name, "' not found"))
}

/// The refusal to take a tag from a problem that does not carry it.
pub fn tag_not_assigned(name: &str) -> (error: ServiceError)
    ensures
        error matches ServiceError::NotFoundError(m) && m@ == quoted(
            "Tag '"@,
            name@,
            "' is not assigned to this problem"@,
        ),
{
    ServiceError::NotFoundError(quote("Tag '", name, "' is not assigned to this problem"))
}

/// The names among `names` that do not occur in `others`, in order and as
/// often as they occur in `names`.
pub open spec fn absent_from(names: Seq<Seq<char>>, others: Seq<Seq<char>>) -> Seq<Seq<char>> {
    names.filter(|name: Seq<char>| !others.contains(name))
}

/// Whether `name` is one of `names`.
pub fn has_name(names: &Vec<String>, name: &String) -> (found: bool)
    ensures
        found == names.deep_view().contains(name@),
{
    let mut i: usize = 0;
    while i < names.len()
        invariant
            i <= names.len(),
            forall|k: int| 0 <= k < i ==> names.deep_view()[k] != name@,
        decreases names.len() - i,
    {
        if names[i] == *name {
            assert(names.deep_view()[i as int] == name@);
            return true;
        }
        i += 1;
    }
    false
}

/// The names among `names` that do not occur in `others`. Where the tags of
/// a problem are replaced, the tags to take away are the current ones absent
/// from the new ones, and the tags to add are the new ones absent from the
/// current ones.
pub fn names_absent_from(names: &Vec<String>, others: &Vec<String>) -> (absent: Vec<String>)
    ensures
        absent.deep_view() == absent_from(names.deep_view(), others.deep_view()),
{
    let mut absent: Vec<String> = Vec::new();
    let mut i: usize = 0;
    proof {
        reveal(Seq::filter);
        assert(names.deep_view().subrange(0, 0) =~= Seq::<Seq<char>>::empty());
        assert(absent.deep_view() =~= Seq::<Seq<char>>::empty());
    }
    while i < names.len()
        invariant
            i <= names.len(),
            absent.deep_view() == absent_from(
                names.deep_view().subrange(0, i as int),
                others.deep_view(),
            ),
        decreases names.len() - i,
    {
        let ghost before = absent.deep_view();
        let missing = !has_name(others, &names[i]);
        if missing {
            absent.push(names[i].clone());
        }
        proof {
            reveal(Seq::filter);
            let longer = names.deep_view().subrange(0, i + 1);
            assert(longer.drop_last() =~= names.deep_view().subrange(0, i as int));
            assert(longer.last() == names[i as int]@);
            if missing {
                assert(absent.deep_view() =~= before.push(names[i as int]@));
            }
        }
        i += 1;
    }
    assert(names.deep_view().subrange(0, names.len() as int) =~= names.deep_view());
    absent
}

} // verus!
