[package]
name = "secret_handoff"
version = "0.1.0"
edition = "2021"
publish = false

[dependencies]
fs2 = "0.4"
libc = "0.2"
rmcp = { version = "*", features = ["server", "transport-io", "transport-async-rw", "schemars", "macros"] }
schemars = "1"
serde = { version = "1", features = ["derive"] }
serde_json = "1"
tokio = { version = "1", features = ["rt-multi-thread", "macros", "io-std", "io-util", "sync", "time"] }
tokio-util = "0.7"
uuid = { version = "1", features = ["v4"] }
zeroize = "1"
