[package]
name = "jsonrpc_transport"
version = "0.1.0"
edition = "2021"
publish = false

[dependencies]
async-trait = "0.1"
base64 = "0.22"
reqwest = { version = "0.12", default-features = false, features = ["json"] }
serde = { version = "1", features = ["derive"] }
serde_json = "1"

[dev-dependencies]
http = "1"
tokio = { version = "1", features = ["rt", "net", "time", "io-util"] }
