[package]
name = "scrape_core"
version = "0.1.0"
edition = "2021"
publish = false

[dependencies]
rapier3d = "0.18"
rand = "0.8"
uuid = { version = "1", features = ["v4"] }
gltf = { version = "1", features = ["import"] }
prost = "0.12"
bytes = "1"
tokio = { version = "1", features = ["rt", "rt-multi-thread", "net", "time", "sync", "macros"] }
bevy_math = "0.13"
