//! The rules that the services of the platform hold requests to, before
//! anything is stored.

pub mod language;
pub mod problem;
pub mod rules;
pub mod submission;
pub mod tag;
pub mod test_case;
pub mod user;
