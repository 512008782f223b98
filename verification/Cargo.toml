[package]
name = "windex"
version = "0.1.0"
edition = "2021"
publish = false

[dependencies]
serde = { version = "1", features = ["derive"] }
toml = "0.8"
dirs = "5"
log = "0.4"
env_logger = "0.11"
anyhow = "1"
thiserror = "1"
rdev = "0.5"
global-hotkey = "0.6"
core-graphics = "0.24"
core-foundation = "0.10"
accessibility-sys = "0.1"
objc2 = "0.5"
objc2-app-kit = "0.2"
objc2-foundation = "0.2"
tray-icon = "0.19"
crossbeam-channel = "0.5"
macos-accessibility-client = "0.0.1"
libc = "0.2"
