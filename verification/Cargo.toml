[package]
name = "desktop_supervisor"
version = "0.1.0"
edition = "2021"
publish = false

[dependencies]
anthropic-auth = { version = "=0.2.0", features = ["async"] }
libc = "=0.2.191"
serde = { version = "=1.0.229", features = ["derive"] }
