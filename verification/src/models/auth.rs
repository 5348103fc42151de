//! What signing up and signing in are made of.

use crate::models::user::User;
use crate::models::user::UserRole;
use uuid::Uuid;
use vstd::prelude::*;

verus! {

/// A request to sign up.
#[derive(Debug, Clone)]
pub struct RegisterRequest {
    pub username: String,
    pub email: String,
    pub password: String,
}

/// A request to sign in.
#[derive(Debug, Clone)]
pub struct LoginRequest {
    pub email: String,
    pub password: String,
}

/// What a successful sign-in hands out. `expires_at` counts microseconds
/// since the Unix epoch.
#[derive(Debug)]
pub struct AuthResponse {
    pub access_token: String,
    pub refresh_token: String,
    pub user: User,
    pub expires_at: i64,
}

impl Clone for AuthResponse {
    fn clone(&self) -> (r: Self)
        ensures
            r == *self,
    {
        AuthResponse {
            access_token: self.access_token.clone(),
            refresh_token: self.refresh_token.clone(),
            user: self.user.clone(),
            expires_at: self.expires_at,
        }
    }
}

/// What an access token states: whose it is, and from when until when it
/// holds, in seconds since the Unix epoch.
#[derive(Debug)]
pub struct Claims {
    pub sub: Uuid,
    pub username: String,
    pub role: UserRole,
    pub exp: i64,
    pub iat: i64,
}

impl Clone for Claims {
    fn clone(&self) -> (r: Self)
        ensures
            r == *self,
    {
        Claims {
            sub: self.sub,
            username: self.username.clone(),
            role: self.role,
            exp: self.exp,
            iat: self.iat,
        }
    }
}

/// A request for a new access token.
#[derive(Debug, Clone)]
pub struct RefreshTokenRequest {
    pub refresh_token: String,
}

} // verus!
