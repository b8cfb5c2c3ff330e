[package]
name = "ztna_core"
version = "0.1.0"
edition = "2021"
publish = false

[dependencies]
actix-web = "4"
anyhow = "1"
chrono = "0.4"
config = "0.13"
env_logger = "0.10"
hostname = "0.3"
hyper = { version = "0.14", features = ["server", "http1", "tcp"] }
log = "0.4"
oauth2 = { version = "4", default-features = false }
os_info = "3"
serde = { version = "1", features = ["derive"] }
serde_json = "1"
tokio = { version = "1", features = ["macros", "rt-multi-thread", "time"] }
