//! The native session with the COSMIC compositor.
pub mod capabilities;
pub mod connection;
pub mod operations;
pub mod snapshot;
pub mod state;
