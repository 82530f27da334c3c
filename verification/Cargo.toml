[package]
name = "brave_opus"
version = "0.1.0"
edition = "2021"
publish = false

[dependencies]
serde_json = "1"
percent-encoding = "2"
serde = { version = "1", features = ["derive"] }
clap = { version = "4", features = ["derive"] }
ureq = { version = "2", features = ["json"] }
log = "0.4"
env_logger = "0.11"
color-eyre = "0.6"
ctrlc = "3"
