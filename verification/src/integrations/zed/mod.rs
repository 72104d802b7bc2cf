//! Project editors.
pub mod backend;
pub mod errors;
pub mod handler;
pub mod opening;
pub mod placing;

pub use backend::{is_zed_application, ProjectEditorKind, ZedBackend, ZedCommand};
pub use errors::ZedError;
pub use handler::{
    register_editor_handler, register_handlers, ProjectEditorHandler, ZedProjectHandler,
};
