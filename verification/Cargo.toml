[package]
name = "aivyx_vision"
version = "0.1.0"
edition = "2021"
publish = false

[dependencies]
async-trait = "0.1.89"
base64 = "0.22"
reqwest = { version = "*", default-features = false, features = ["json"] }
serde = { version = "1", features = ["derive"] }
svg-hush = "*"
thiserror = "2"
tokio = { version = "1", features = ["rt", "rt-multi-thread", "time"] }
tracing = "0.1"
uuid = { version = "1", features = ["v4"] }
