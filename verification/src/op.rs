//! The operators.

pub mod file;
pub mod generic;
pub mod json;
pub mod offramp;
pub mod route;
