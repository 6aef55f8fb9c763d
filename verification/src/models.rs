//! Data shapes exchanged with callers.

pub mod common;
pub mod user;

pub use common::{BaseUser, ErrorResponse, PaginationParams, UserBase};
pub use user::User;
