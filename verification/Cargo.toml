[package]
name = "rid_simulator"
version = "0.1.0"
edition = "2021"
publish = false

[dependencies]
crc16 = "*"
libwifi = "*"
pnet = "*"
rumqttc = { version = "*", features = ["websocket", "use-rustls"] }
serde = { version = "*", features = ["derive"] }
serde_json = "*"
tokio = { version = "*", features = ["rt-multi-thread", "macros", "time", "sync"] }
