//! The user resource.

pub mod models;
pub mod mutation;
pub mod query;
