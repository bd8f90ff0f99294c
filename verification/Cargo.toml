[package]
name = "potd_wallpaper"
version = "0.1.0"
edition = "2021"
publish = false

[dependencies]
parking_lot = "*"
rand = "0.8"
clap = { version = "*", features = ["derive"] }
log = "*"
env_logger = "*"
tokio = { version = "*", features = ["full"] }
potd = "*"
