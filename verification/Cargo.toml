[package]
name = "yazelix_transport"
version = "0.1.0"
edition = "2021"
publish = false

[dependencies]
serde = { version = "=1.0.229", features = ["derive"] }
serde_json = "=1.0.154"
log = "=0.4.35"
steel-core = { version = "=0.8.3", features = ["sync"] }
