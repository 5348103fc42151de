//! The data model.

pub mod auth;
pub mod judge;
pub mod language;
pub mod problem;
pub mod submission;
pub mod tag;
pub mod test_case;
pub mod user;
