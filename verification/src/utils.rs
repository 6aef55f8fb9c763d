//! Building blocks used by every handler.

pub mod clock;
pub mod response;
pub mod text;
