[package]
name = "optimizer"
version = "0.1.0"
edition = "2021"
publish = false

[dependencies]
backtrace = "*"
anyhow = "*"
serde_json = "*"
structopt = "*"
tokio = { version = "*", features = ["macros", "rt-multi-thread"] }
reqwest = { version = "*", default-features = false }
