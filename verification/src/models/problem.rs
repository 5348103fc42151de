//! Problems to solve.

use uuid::Uuid;
use vstd::prelude::*;

verus! {

/// How hard a problem is.
#[derive(Debug, Clone, Copy, PartialEq, Eq, Structural)]
pub enum DifficultyLevel {
    Easy,
    Medium,
    Hard,
}

/// A problem as the problem store keeps it. `created_at` and `updated_at`
/// count microseconds since the Unix epoch.
#[derive(Debug)]
pub struct Problem {
    pub id: Uuid,
    pub title: String,
    pub slug: String,
    pub description: String,
    pub difficulty: DifficultyLevel,
    pub created_at: i64,
    pub updated_at: i64,
}

impl Clone for Problem {
    fn clone(&self) -> (r: Self)
        ensures
            r == *self,
    {
        Problem {
            id: self.id,
            title: self.title.clone(),
            slug: self.slug.clone(),
            description: self.description.clone(),
            difficulty: self.difficulty,
            created_at: self.created_at,
            updated_at: self.updated_at,
        }
    }
}

/// What a new problem is made of.
#[derive(Debug, Clone)]
pub struct CreateProblemRequest {
    pub title: String,
    pub slug: String,
    pub description: String,
    pub difficulty: DifficultyLevel,
}

/// The fields of a problem that a request replaces.
#[derive(Debug, Clone)]
pub struct UpdateProblemRequest {
    pub title: Option<String>,
    pub slug: Option<String>,
    pub description: Option<String>,
    pub difficulty: Option<DifficultyLevel>,
}

/// A problem with the names of its tags.
#[derive(Debug)]
pub struct ProblemWithTags {
    pub problem: Problem,
    pub tags: Vec<String>,
}

impl Clone for ProblemWithTags {
    fn clone(&self) -> (r: Self)
        ensures
            r.problem == self.problem,
            r.tags.len() == self.tags.len(),
    {
        ProblemWithTags { problem: self.problem.clone(), tags: self.tags.clone() }
    }
}

/// Selection of problems in a listing.
#[derive(Debug, Clone)]
pub struct ProblemFilter {
    pub difficulty: Option<DifficultyLevel>,
    pub tags: Option<Vec<String>>,
    pub limit: Option<i32>,
    pub offset: Option<i32>,
    pub search: Option<String>,
}

impl Default for ProblemFilter {
    fn default() -> (r: Self)
        ensures
            r.difficulty.is_none(),
            r.tags.is_none(),
            r.limit.is_none(),
            r.offset.is_none(),
            r.search.is_none(),
    {
        ProblemFilter { difficulty: None, tags: None, limit: None, offset: None, search: None }
    }
}

} // verus!
