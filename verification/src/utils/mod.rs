//! Error types and small helpers shared by the whole crate.

pub mod error;
pub mod text;

pub use error::{AppError, AppResult};
