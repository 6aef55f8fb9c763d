//! Resolvers, grouped by resource.

pub mod user;
