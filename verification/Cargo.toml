[package]
name = "mlc_reader"
version = "0.1.0"
edition = "2021"
publish = false

[dependencies]
serde = { version = "1", features = ["derive"] }
serde_json = "1"
libsql = "0.9"
tokio = { version = "1", features = ["macros", "rt-multi-thread"] }
clap = { version = "4", features = ["derive"] }
csv = "1"
ssh2 = "0.9"
dotenv = "0.15"
env_logger = "0.11"
log = "0.4"
