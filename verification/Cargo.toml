[package]
name = "bilibili_ticket"
version = "0.1.0"
edition = "2021"
publish = false

[dependencies]
anyhow = "1"
base64 = "0.22"
chrono = "0.4"
eframe = { version = "0.29", default-features = false }
env_logger = "0.11"
fs_extra = "1.3"
include_dir = "0.7"
log = "0.4"
rand = "0.9"
serde_json = "1"
tempfile = "3"
tokio = { version = "1", features = ["macros", "rt-multi-thread"] }
