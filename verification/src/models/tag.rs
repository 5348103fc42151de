//! Tags that group problems.

use vstd::prelude::*;

verus! {

/// A tag as the tag store keeps it. `created_at` counts microseconds since
/// the Unix epoch.
#[derive(Debug, Clone)]
pub struct Tag {
    pub name: String,
    pub description: Option<String>,
    pub created_at: i64,
}

/// What a new tag is made of.
#[derive(Debug, Clone)]
pub struct CreateTagRequest {
    pub name: String,
    pub description: Option<String>,
}

/// A tag with the number of problems that carry it.
#[derive(Debug, Clone)]
pub struct TagWithCount {
    pub name: String,
    pub description: Option<String>,
    pub problem_count: i64,
}

} // verus!
