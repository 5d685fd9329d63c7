//! A blog store: posts, their comments, and the rules that bind them.
//!
//! Identifiers are 128-bit values (the bits of a UUID) and times are
//! microseconds since the Unix epoch.

pub mod errors;
pub mod handlers;
pub mod models;
pub mod storage;

pub use errors::ApiError;
pub use models::{Comment, CreateComment, CreatePost, Post, UpdatePost};
pub use storage::BlogData;
