[package]
name = "terra_exec"
version = "0.1.0"
edition = "2021"
publish = false

[dependencies]
serde_json = "1"
terra-rust-api = "=1.2.20"
terra-rust-wallet = "=1.1.5"
secp256k1 = "=0.20.3"
rust_decimal = "=1.43.0"
anyhow = "1"
clap = { version = "*", features = ["derive", "env"] }
dotenv = "*"
env_logger = "*"
log = "*"
tokio = { version = "1", features = ["macros", "rt-multi-thread"] }
reqwest = "=0.11.27"
