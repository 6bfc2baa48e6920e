[package]
name = "rust-agents"
version = "0.1.0"
edition = "2021"
publish = false

[dependencies]
anyhow = "1"
pyo3 = "*"
pyo3-async-runtimes = { version = "*", features = ["tokio-runtime"] }
reqwest = { version = "0.12", default-features = false, features = ["json"] }
serde = { version = "1", features = ["derive"] }
serde_json = "1"
tokio = { version = "1", features = ["macros", "rt-multi-thread", "time"] }
uuid = { version = "1", features = ["v4"] }
