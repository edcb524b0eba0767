[package]
name = "aiop"
version = "0.4.0"
edition = "2021"
publish = false

[dependencies]
uuid = { version = "1", features = ["v4", "serde"] }
serde = { version = "1", features = ["derive"] }
serde_json = "1"
sha2 = "0.10"
sqlite = "*"
rustix = { version = "1", features = ["event"] }
rmcp = { version = "*", features = ["server", "transport-io"] }
schemars = "1"
tokio = { version = "1", features = ["macros", "rt-multi-thread"] }
