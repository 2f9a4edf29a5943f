[package]
name = "stun_rs"
version = "0.1.0"
edition = "2021"
publish = false

[dependencies]
bytes = "*"
clap = "*"
env_logger = "*"
log = "*"
rand = "*"
tokio = { version = "*", features = ["macros", "net", "rt-multi-thread", "signal", "sync"] }
