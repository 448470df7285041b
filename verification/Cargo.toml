[package]
name = "corgi"
version = "0.1.0"
edition = "2021"
publish = false

[dependencies]
dirs = "*"
rand = "0.8"
serde = { version = "1", features = ["derive"] }
serde_json = "1"
structopt = "0.3"
tokio = { version = "1", features = ["full"] }
futures = "0.3"
