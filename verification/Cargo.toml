[package]
name = "toggleproxy"
version = "0.1.0"
edition = "2021"
publish = false

[dependencies]
anyhow = "*"
clap = { version = "*", features = ["cargo"] }
dirs = "*"
serde = { version = "*", features = ["derive"] }
serde_json = "*"
systemctl = "*"
tokio = { version = "*", features = ["net", "io-util", "rt-multi-thread", "macros", "sync"] }
