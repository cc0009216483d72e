//! Degree-plan requirement expressions and course catalog records.

pub mod catalog;
pub mod requirements;
pub mod text;
pub mod types;
