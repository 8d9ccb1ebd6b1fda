[package]
name = "infinitum"
version = "0.1.0"
edition = "2021"
publish = false

[dependencies]
clap = { version = "=4.6.7", features = ["derive"] }
serde_json = { version = "=1.0.154", features = ["preserve_order"] }
libloading = "=0.8.9"
jiff = "=0.2.39"
tokio = { version = "=1.54.1", features = ["rt-multi-thread", "net", "macros", "time", "signal", "io-util"] }
axum = "=0.8.9"
tokio-stream = "=0.1.19"
