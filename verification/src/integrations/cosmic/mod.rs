//! The COSMIC desktop.
pub mod backend;
pub mod errors;
pub mod handler;
pub mod models;
pub mod wayland;

pub use backend::CosmicBackend;
pub use errors::CosmicError;
pub use handler::{register_handlers, WorkspaceHandler};
