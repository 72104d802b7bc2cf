//! Containers and Compose projects.
pub mod backend;
pub mod checks;
pub mod cleanup;
pub mod compose;
pub mod containers;
pub mod desktop;
pub mod engine;
pub mod errors;
pub mod handler;
pub mod models;
pub mod probing;
pub mod projects;
pub mod readiness;
pub mod snapshot;
