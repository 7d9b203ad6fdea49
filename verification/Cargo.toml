[package]
name = "wamp"
version = "0.1.0"
edition = "2021"
publish = false

[dependencies]
eventual = "=0.1.7"
log = "=0.4.35"
native-tls = "0.2"
rmp-serde = "=1.3.1"
serde = { version = "=1.0.229", features = ["derive"] }
serde_json = "=1.0.154"
websocket = { version = "=0.27.1", default-features = false, features = ["sync"] }
