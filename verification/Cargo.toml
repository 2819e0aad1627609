[package]
name = "periph_emu"
version = "0.1.0"
edition = "2021"
publish = false

[dependencies]
anyhow = "*"
base64 = "*"
clap = { version = "*", features = ["derive"] }
env_logger = "*"
log = "*"
serde = "*"
serde_derive = "*"
tokio = { version = "*", features = ["macros", "rt-multi-thread", "net", "io-util", "sync", "time"] }
toml = "*"
