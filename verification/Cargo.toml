[package]
name = "workstate"
version = "0.1.0"
edition = "2021"
publish = false

[dependencies]
cosmic-client-toolkit = { version = "*", default-features = false }
cosmic-protocols = { version = "*", features = ["client"] }
polling = "3"
serde = { version = "1", features = ["derive"] }
serde_json = "1"
smithay-client-toolkit = { version = "*", default-features = false }
thiserror = "2"
tokio = { version = "1", features = ["full"] }
wayland-client = "0.31"
wayland-protocols = { version = "0.32", features = ["client", "staging", "unstable"] }
