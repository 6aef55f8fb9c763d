//! The system resource.

pub mod controller;
pub mod dto;
