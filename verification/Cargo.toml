[package]
name = "bioscape"
version = "0.1.0"
edition = "2021"
publish = false

[dependencies]
serde = { version = "1", features = ["derive"] }
serde_json = "1"
crossbeam-channel = "0.5"
tokio = { version = "1", features = ["net", "io-util", "rt-multi-thread", "macros"] }
tracing = "0.1"
tracing-subscriber = "0.3"
log = "0.4"
env_logger = "0.9"
dotenv = "0.15"
bincode = "1"
hecs = "*"
