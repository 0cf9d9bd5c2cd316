[package]
name = "twitch_bindings"
version = "0.1.0"
edition = "2021"
publish = false

[dependencies]
serde = { version = "1", features = ["derive"] }
serde_json = "1"
serde_urlencoded = "0.7"
twitch_oauth2 = { version = "*", default-features = false }
typed-builder = "*"
