[package]
name = "pact_builder"
version = "0.1.0"
edition = "2021"
publish = false

[dependencies]
serde_json = "=1.0.154"
serde = { version = "1", features = ["derive"] }
base64 = "=0.13.1"
ansi_term = "=0.12.1"
lazy_static = "=1.5.1"
libc = "=0.2.191"
log = "=0.4.34"
