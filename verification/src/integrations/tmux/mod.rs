//! Terminal sessions.
pub mod backend;
pub mod errors;
pub mod models;

pub use backend::TmuxProcessBackend;
pub use models::{session_name, validate_identity, validate_name, validate_process, window_name};
