[package]
name = "delta_trader"
version = "0.1.0"
edition = "2021"
publish = false

[dependencies]
rust_decimal = "1"
csv = "1"
chrono = "0.4"
ftx = "*"
tokio = { version = "1", features = ["macros", "rt-multi-thread"] }
futures = "0.3"
ta = "*"
serde = { version = "1", features = ["derive"] }
serde_json = "1"
dotenv = "*"
env_logger = "*"
log = "0.4"
