[package]
name = "ear_api"
version = "0.1.0"
edition = "2021"
publish = false

[dependencies]
tokio = { version = "*", features = ["full"] }
bluer = { version = "*", features = ["rfcomm"] }
uuid = { version = "*", features = ["v4"] }
