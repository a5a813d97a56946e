[package]
name = "channel_permissions"
version = "0.1.0"
edition = "2021"
publish = false

[dependencies]
jwt-simple = { version = "=0.15.0", default-features = false, features = ["pure-rust"] }
serde_json = "=1.0.151"
