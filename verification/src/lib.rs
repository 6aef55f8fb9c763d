//! Core of a small user-management backend: the response envelope, the data
//! shapes shared by the REST and GraphQL surfaces, and the decisions that the
//! request handlers of both surfaces make over a fixed directory of one
//! hundred users.
//!
//! Everything here is plain data in, plain data out. Routing, serialisation
//! and the server loop live with the caller.
//!
//! All functions are verified against their contracts. What is taken on
//! trust is named here. In [`utils::clock`]: the reading of the clock, of
//! which nothing is claimed. In [`graphql::error`]: the declaration of
//! `async_graphql::Error` as an opaque type; the two names for what such an
//! error holds, its message and its extensions; and the contracts of the
//! three functions that touch one, of which two read (the message, one
//! extension) and one builds an error with a single extension.

pub mod api;
pub mod graphql;
pub mod models;
pub mod utils;

pub use api::create_api_service;
pub use utils::response::ApiResponse;
