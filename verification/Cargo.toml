[package]
name = "controller"
version = "0.1.0"
edition = "2021"
publish = false

[dependencies]
rand = "0.8"
anyhow = "1"
log = "0.4"
serde = { version = "1", features = ["derive"] }
serde_json = "1"
serde_yaml = "0.9"
serde_with = { version = "3", default-features = false, features = ["macros"] }
imgui = { version = "0.12", default-features = false }
reqwest = { version = "0.12", default-features = false, features = ["json"] }
tokio = { version = "1", features = ["rt-multi-thread"] }
clap = { version = "4", features = ["derive"] }
obfstr = "0.4"
env_logger = { version = "0.11", default-features = false }
mint = "0.5"
nalgebra = { version = "0.33", default-features = false, features = ["std"] }
