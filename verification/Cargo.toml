[package]
name = "starlog"
version = "0.1.0"
edition = "2021"
publish = false

[dependencies]
slack-hook2 = "=0.10.1"
tokio = { version = "=1.53.2", features = ["rt-multi-thread"] }
clap = "=2.34.0"
