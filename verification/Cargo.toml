[package]
name = "grpc_client"
version = "0.1.0"
edition = "2021"
publish = false

[dependencies]
anyhow = "1"
async-trait = "0.1"
axum = "0.7"
bytes = "1"
chrono = "0.4"
clap = { version = "4", features = ["derive"] }
dashmap = "6"
futures = "0.3"
http = "1"
prost = "0.13"
prost-reflect = { version = "0.14", features = ["serde"] }
prost-types = "0.13"
serde = { version = "1", features = ["derive"] }
serde_json = "1"
serde_yaml = "0.9"
tokio = { version = "1", features = ["rt-multi-thread", "macros", "signal", "fs", "io-std"] }
tokio-stream = "0.1"
tonic = { version = "0.12", features = ["tls"] }
tonic-reflection = "0.12"
tower = "0.5"
tower-http = { version = "0.6", features = ["cors", "fs"] }
