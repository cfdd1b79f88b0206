[package]
name = "hostprobe"
version = "0.1.0"
edition = "2021"
publish = false

[dependencies]
anyhow = "1"
chrono = "0.4"
rocket = { version = "0.5", features = ["json"] }
ssh2 = "0.9"
tokio = { version = "1", features = ["sync", "time", "macros", "rt-multi-thread"] }
toml_edit = "*"
validator = { version = "*", features = ["derive"] }
