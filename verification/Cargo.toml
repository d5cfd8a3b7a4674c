[package]
name = "clikit"
version = "0.1.0"
edition = "2021"
publish = false

[dependencies]
anyhow = "*"
clap = { version = "*", features = ["derive"] }
clap_complete = "*"
clap_mangen = "*"
dirs = "*"
env_logger = "*"
http = "=1.5.0"
inquire = "*"
io-process = { version = "=0.0.2", features = ["std"] }
native-tls = "=0.2.18"
rustls = { version = "=0.23.45", default-features = false, features = ["ring", "std", "logging", "tls12"] }
rustls-platform-verifier = "=0.7.1"
secrecy = "=0.10.3"
serde = { version = "*", features = ["derive"] }
serde_json = "*"
serde-toml-merge = "*"
shellexpand = "*"
thiserror = "*"
toml = "=0.9.12"
