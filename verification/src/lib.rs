//! The verified core of a coding-exercise platform.
//!
//! At its heart is the judging engine in [`judge`]: the rules by which a
//! submission is compiled, run against the test cases of its problem and
//! given a verdict, as a state machine that performs nothing itself, with the
//! laws that hold of it. Around the engine stand the data model in
//! [`models`], the rules that requests are held to in [`services`], the texts
//! of the queries that depend on what is asked for in [`repositories`], the
//! failures and how they are answered in [`errors`], and what all parts share
//! in [`common`] and [`text`].

pub mod common;
pub mod errors;
pub mod judge;
pub mod models;
pub mod outside;
pub mod repositories;
pub mod services;
pub mod text;
