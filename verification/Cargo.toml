[package]
name = "deploy_tools"
version = "0.1.0"
edition = "2021"
publish = false

[dependencies]
crypto-hash = "=0.3.4"
ssh2 = "=0.9.6"
chrono = "=0.4.45"
uuid = { version = "=1.29.0", features = ["v4"] }
zip = "=9.0.5"
fs_extra = "=1.3.0"

[dev-dependencies]
regex = "=1.13.1"
