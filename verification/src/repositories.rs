//! What the stores compute before they talk to the database.

pub mod queries;
