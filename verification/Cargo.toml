[package]
name = "kulyk"
version = "0.1.0"
edition = "2021"
publish = false

[dependencies]
anyhow = "1"
axum = "*"
clap = { version = "4", features = ["derive"] }
encoding_rs = "0.8"
llama-cpp-2 = "*"
serde = { version = "1", features = ["derive"] }
tokio = { version = "1", features = ["full"] }
tower-http = { version = "*", features = ["cors"] }
tracing = "0.1"
tracing-subscriber = "*"
