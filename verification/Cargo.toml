[package]
name = "black_box"
version = "0.1.0"
edition = "2021"
publish = false

[dependencies]
rand = "0.8"
ring = "0.17"
data-encoding = "2"
serde = "1"
serde_derive = "1"
serde_json = "1"
log = "0.4"
env_logger = "0.10"
clap = "2"
strum_macros = "0.24"
paho-mqtt = { version = "0.12", default-features = false }
postgres = "0.19"
r2d2 = "0.8"
r2d2_postgres = "0.18"
