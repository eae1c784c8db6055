[package]
name = "pm2_alerter"
version = "0.1.0"
edition = "2021"
publish = false

[dependencies]
bstr = "*"
regex = "1"
serde_json = "1"
clap = { version = "*", features = ["derive"] }
zbx_sender = "*"
