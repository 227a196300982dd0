[package]
name = "batch_rs"
version = "0.1.0"
edition = "2021"
publish = false

[dependencies]
chrono = { version = "0.4", features = ["serde"] }
serde_json = "1"
serde = { version = "1", features = ["derive"] }
postgres = { version = "0.19", features = ["with-chrono-0_4"] }
amiquip = { version = "0.4", default-features = false }
anyhow = "1"
clap = { version = "3.2", features = ["derive"] }
cli-table = "0.4"
duct = "0.13"
env_logger = "0.9"
envy = "0.4"
ftp = "3"
log = "0.4"
