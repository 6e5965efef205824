[package]
name = "api-proxy"
version = "0.1.0"
edition = "2021"
publish = false

[dependencies]
rand = "=0.8.8"
serde = { version = "=1.0.229", features = ["derive"] }
serde_json = "=1.0.154"
tokio = { version = "=1.54.1", features = ["rt-multi-thread", "time"] }
actix-web = "=4.18.1"
clap = "=4.6.7"
wreq = { version = "=0.15.3", features = ["json"] }
wreq-util = "=0.1.0"
