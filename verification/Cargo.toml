[package]
name = "auth_proxy"
version = "0.1.0"
edition = "2021"
publish = false

[dependencies]
bcrypt = "*"
bincode = "1"
clap = "2"
env_logger = "0.8"
log = "0.4"
once_cell = "1"
serde = { version = "1", features = ["derive"] }
sled = "0.34"
thiserror = "1"
tokio = { version = "1", features = ["rt", "macros"] }
