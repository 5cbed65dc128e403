[package]
name = "down_on_spot"
version = "0.1.0"
edition = "2021"
publish = false

[dependencies]
url = "2"
clap = { version = "4", features = ["derive"] }
serde = { version = "1", features = ["derive"] }
serde_json = "1"
tokio = { version = "1", features = ["fs", "io-util", "macros", "rt-multi-thread", "time"] }
colored = "2"
env_logger = "0.10"
log = "0.4"
aspotify = "0.7"
librespot = { version = "0.4", default-features = false }
