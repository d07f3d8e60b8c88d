[package]
name = "aetherion"
version = "0.1.0"
edition = "2021"
publish = false

[dependencies]
bevy = { version = "=0.11.3", default-features = false, features = ["serialize"] }
bevy_pkv = "0.8"
serde = { version = "=1.0.229", features = ["derive"] }
strum = "=0.25.0"
strum_macros = "=0.25.3"
