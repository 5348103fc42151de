//! What every part of the platform shares.

pub mod hash;
pub mod pagination;
pub mod response;
