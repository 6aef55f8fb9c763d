//! The GraphQL surface: failure handling and one module per resource.

pub mod error;
pub mod modules;
