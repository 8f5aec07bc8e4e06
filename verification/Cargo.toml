[package]
name = "run_in_roblox"
version = "0.1.0"
edition = "2021"
publish = false

[dependencies]
anyhow = "1"
fs-err = "*"
roblox_install = "*"
serde = { version = "1", features = ["derive"] }
serde_json = "1"
tiny_http = "*"
