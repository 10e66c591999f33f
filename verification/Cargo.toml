[package]
name = "rhai_bridge"
version = "0.1.0"
edition = "2021"
publish = false

[dependencies]
rhai = { version = "1", features = ["sync"] }
serde = { version = "1", features = ["derive"] }
serde_json = "1"
tokio = { version = "1", features = ["sync", "rt-multi-thread", "time"] }
libc = "0.2"
lazy_static = "1"
