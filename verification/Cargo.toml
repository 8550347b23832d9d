[package]
name = "cds_badge"
version = "0.1.0"
edition = "2021"
publish = false

[dependencies]
badge = "*"
regex = "1"
serde = { version = "1", features = ["derive"] }
serde_json = "1"
url = { version = "2", features = ["serde"] }
config = "*"
clap = "4"
chrono = { version = "0.4", features = ["serde"] }
log = "0.4"
env_logger = "*"
actix-web = "4"
rdkafka = "*"
diesel = { version = "2", features = ["postgres", "r2d2"] }
jsonwebtoken = "9"
surf = "2"
async-std = "1"
