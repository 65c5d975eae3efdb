[package]
name = "socks_uot"
version = "0.1.0"
edition = "2021"
publish = false

[dependencies]
socks5-proto = "0.3"
rand = "0.8"
tokio = { version = "1", features = ["net", "io-util", "rt-multi-thread", "macros", "sync"] }
clap = { version = "3", features = ["derive"] }
log = "0.4"
env_logger = "0.9"
