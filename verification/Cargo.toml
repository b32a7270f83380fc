[package]
name = "judge"
version = "0.1.0"
edition = "2021"
publish = false

[dependencies]
serde_json = "1"
sysinfo = "*"
tokio = { version = "1", features = ["full"] }
futures = "0.3"
nix = { version = "*", features = ["signal"] }
