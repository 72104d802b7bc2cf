//! The integrations that actions are carried out with.
pub mod android;
pub mod application;
pub mod closing;
pub mod command;
pub mod cosmic;
pub mod directories;
pub mod docker;
pub mod environment;
pub mod registry;
pub mod tmux;
pub mod undo;
pub mod windows;
pub mod zed;
