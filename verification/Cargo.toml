[package]
name = "daylight_extender"
version = "0.1.0"
edition = "2021"
publish = false

[dependencies]
anyhow = "1"
chrono = "0.4"
clap = { version = "4", features = ["derive"] }
clap-num = "1"
log = "0.4"
reqwest = { version = "0.11", default-features = false, features = ["json"] }
serde = { version = "1", features = ["derive"] }
serde_json = "1"
simple_logger = "4"
sunrise = "1.0"
tokio = { version = "1", features = ["macros", "rt-multi-thread"] }
