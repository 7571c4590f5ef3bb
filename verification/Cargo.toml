[package]
name = "bannerscan"
version = "0.1.0"
edition = "2021"
publish = false

[dependencies]
clap = "*"
tokio = { version = "*", features = ["macros", "rt-multi-thread", "sync"] }
