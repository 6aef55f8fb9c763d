//! The user resource.

pub mod controller;
