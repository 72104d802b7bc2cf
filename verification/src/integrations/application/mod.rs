//! Applications.
pub mod handler;
pub mod open;

pub use handler::{register_handlers, ApplicationActionHandler};
