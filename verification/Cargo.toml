[package]
name = "cpu_sidecar"
version = "0.1.0"
edition = "2021"
publish = false

[dependencies]
anyhow = "1"
axum = "0.7"
clap = { version = "4", features = ["derive"] }
sysinfo = "*"
tokio = { version = "1", features = ["full"] }
