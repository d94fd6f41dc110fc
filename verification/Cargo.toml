[package]
name = "embed_server"
version = "0.1.0"
edition = "2021"
publish = false

[dependencies]
actix-web = "*"
clap = "2"
env_logger = "*"
log = "*"
rust-bert = "*"
serde = { version = "*", features = ["derive"] }
serde_json = "*"
tch = "*"
