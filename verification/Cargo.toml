[package]
name = "deskhopper"
version = "0.1.0"
edition = "2021"
publish = false

[dependencies]
anyhow = "*"
env_logger = "*"
global-hotkey = "*"
image = { version = "*", default-features = false, features = ["ico"] }
log = "*"
tao = "*"
tray-icon = "*"
