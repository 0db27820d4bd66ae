[package]
name = "emotion_transform"
version = "0.1.0"
edition = "2021"
publish = false

[dependencies]
serde = { version = "*", features = ["derive"] }
serde_json = "*"
once_cell = "*"
swc_common = "*"
swc_ecmascript = { version = "*", features = ["visit"] }
