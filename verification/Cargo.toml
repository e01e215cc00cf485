[package]
name = "second"
version = "0.1.0"
edition = "2021"
publish = false

[dependencies]
which = "=8.0.6"
cpal = "=0.15.3"
hound = "=3.5.1"
serde = { version = "=1.0.229", features = ["derive"] }
serde_json = "=1.0.151"
