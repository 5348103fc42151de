//! Users of the platform.

use crate::models::submission::clone_text;
use uuid::Uuid;
use vstd::prelude::*;

verus! {

/// What a user may do.
#[derive(Debug, Clone, Copy, PartialEq, Eq, Structural)]
pub enum UserRole {
    User,
    Admin,
}

/// A user as the user store keeps it. `created_at` and `updated_at` count
/// microseconds since the Unix epoch.
#[derive(Debug)]
pub struct User {
    pub id: Uuid,
    pub username: String,
    pub email: String,
    pub password_hash: String,
    pub avatar_url: Option<String>,
    pub role: UserRole,
    pub created_at: i64,
    pub updated_at: i64,
}

impl Clone for User {
    fn clone(&self) -> (r: Self)
        ensures
            r == *self,
    {
        User {
            id: self.id,
            username: self.username.clone(),
            email: self.email.clone(),
            password_hash: self.password_hash.clone(),
            avatar_url: clone_text(&self.avatar_url),
            role: self.role,
            created_at: self.created_at,
            updated_at: self.updated_at,
        }
    }
}

/// What a new user is made of.
#[derive(Debug, Clone)]
pub struct CreateUserRequest {
    pub username: String,
    pub email: String,
    pub password_hash: String,
    pub role: UserRole,
}

/// The fields of a user that a request replaces.
#[derive(Debug, Clone)]
pub struct UpdateUserRequest {
    pub username: Option<String>,
    pub email: Option<String>,
    pub avatar_url: Option<String>,
}

/// A user with the counts of their submissions.
#[derive(Debug)]
pub struct UserProfile {
    pub id: Uuid,
    pub username: String,
    pub email: String,
    pub avatar_url: Option<String>,
    pub role: UserRole,
    pub total_submissions: i32,
    pub accepted_submissions: i32,
    pub created_at: i64,
}

impl Clone for UserProfile {
    fn clone(&self) -> (r: Self)
        ensures
            r == *self,
    {
        UserProfile {
            id: self.id,
            username: self.username.clone(),
            email: self.email.clone(),
            avatar_url: clone_text(&self.avatar_url),
            role: self.role,
            total_submissions: self.total_submissions,
            accepted_submissions: self.accepted_submissions,
            created_at: self.created_at,
        }
    }
}

/// How many problems a user has solved, by difficulty.
#[derive(Debug)]
pub struct UserStats {
    pub user_id: Uuid,
    pub problems_solved: i32,
    pub total_submissions: i32,
    pub easy_solved: i32,
    pub medium_solved: i32,
    pub hard_solved: i32,
    pub updated_at: i64,
}

impl Clone for UserStats {
    fn clone(&self) -> (r: Self)
        ensures
            r == *self,
    {
        UserStats {
            user_id: self.user_id,
            problems_solved: self.problems_solved,
            total_submissions: self.total_submissions,
            easy_solved: self.easy_solved,
            medium_solved: self.medium_solved,
            hard_solved: self.hard_solved,
            updated_at: self.updated_at,
        }
    }
}

} // verus!
