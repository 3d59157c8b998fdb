[package]
name = "magic_wormhole_core"
version = "0.1.0"
edition = "2021"
publish = false

[dependencies]
hex = "0.4"
serde = { version = "1", features = ["derive"] }
serde_json = "1"
log = "0.4"
jni = "*"
android_logger = "*"
futures = "0.1"
tokio-core = "0.1"
websocket = { version = "0.20", default-features = false, features = ["async"] }
