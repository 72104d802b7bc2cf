//! Commands: those that run once, and those that go on running.
pub mod cleanup;
pub mod handler;
pub mod target;

pub use handler::{register_handlers, CommandActionHandler};
