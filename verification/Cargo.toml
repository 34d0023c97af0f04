[package]
name = "discord_gateway"
version = "0.1.0"
edition = "2021"
publish = false

[dependencies]
serde_json = "*"
tungstenite = { version = "*", default-features = false, features = ["handshake"] }
