//! The rules for users.

use crate::errors::service::ServiceError;
use crate::models::submission::Submission;
use crate::models::submission::SubmissionStatus;
use crate::models::user::CreateUserRequest;
use crate::models::user::UpdateUserRequest;
use crate::models::user::User;
use crate::models::user::UserProfile;
use crate::services::rules::decides;
use crate::services::rules::refuse;
use crate::services::submission::count_of;
use crate::services::submission::count_with_status;
use crate::text::byte_length;
use crate::text::contains_char;
use crate::text::has_char;
use vstd::prelude::*;

verus! {

/// The least number of bytes in a username.
pub const MIN_USERNAME_BYTES: usize = 3;

/// What is wrong with a username, if anything: it is too short.
pub open spec fn username_fault(username: Seq<char>) -> Option<Seq<char>> {
    if byte_length(username) < MIN_USERNAME_BYTES {
        Some("Username must be at least 3 characters"@)
    } else {
        None
    }
}

/// What is wrong with a new user, if anything: a username that is too short,
/// then an email that is empty or lacks its `@`.
pub open spec fn new_user_fault(username: Seq<char>, email: Seq<char>) -> Option<Seq<char>> {
    if username_fault(username) is Some {
        username_fault(username)
    } else if email.len() == 0 || !has_char(email, '@') {
        Some("Invalid email format"@)
    } else {
        None
    }
}

/// What is wrong with a change to a user, if anything: a username that is
/// given and too short.
pub open spec fn user_update_fault(username: Option<Seq<char>>) -> Option<Seq<char>> {
    if username is Some {
        username_fault(username->0)
    } else {
        None
    }
}

/// Holds a new user to the rules.
pub fn validate_new_user(request: &CreateUserRequest) -> (result: Result<(), ServiceError>)
    ensures
        decides(result, new_user_fault(request.username@, request.email@)),
{
    if request.username.as_str().len() < MIN_USERNAME_BYTES {
        refuse("Username must be at least 3 characters")
    } else if request.email.as_str().is_empty() || !contains_char(request.email.as_str(), '@') {
        refuse("Invalid email format")
    } else {
        Ok(())
    }
}

/// Holds a change to a user to the rules.
pub fn validate_user_update(update: &UpdateUserRequest) -> (result: Result<(), ServiceError>)
    ensures
        decides(result, user_update_fault(update.username.deep_view())),
{
    match &update.username {
        Some(username) => {
            if username.as_str().len() < MIN_USERNAME_BYTES {
                refuse("Username must be at least 3 characters")
            } else {
                Ok(())
            }
        },
        None => Ok(()),
    }
}

/// The profile of a user: the user with the number of their submissions and
/// the number of those that were accepted, each cut to 32 bits.
pub fn user_profile(user: User, submissions: &Vec<Submission>) -> (profile: UserProfile)
    ensures
        profile.id == user.id,
        profile.username == user.username,
        profile.email == user.email,
        profile.avatar_url == user.avatar_url,
        profile.role == user.role,
        profile.created_at == user.created_at,
        profile.total_submissions == submissions.len() as i32,
        profile.accepted_submissions == count_of(
            submissions.deep_view(),
            SubmissionStatus::Accepted,
        ) as i32,
{
    let accepted = count_with_status(submissions, SubmissionStatus::Accepted);
    UserProfile {
        id: user.id,
        username: user.username,
        email: user.email,
        avatar_url: user.avatar_url,
        role: user.role,
        total_submissions: #[verifier::truncate]
        (submissions.len() as i32),
        accepted_submissions: #[verifier::truncate]
        (accepted as i32),
        created_at: user.created_at,
    }
}

} // verus!
