//! What can go wrong, how each failure reads, and how it is answered.

pub mod judge;
pub mod repository;
pub mod response;
pub mod service;
