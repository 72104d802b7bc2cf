//! Verified decision logic for assembling and tearing down desktop work environments.
pub mod collections;
pub mod domain;
pub mod encoding;
pub mod error;
pub mod integrations;
pub mod json;
pub mod paths;
pub mod planner;
pub mod platform;
pub mod ports;
pub mod text;
pub mod time;
pub mod values;
