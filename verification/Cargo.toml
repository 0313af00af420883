[package]
name = "flowrs_img"
version = "0.1.0"
edition = "2021"
publish = false

[dependencies]
flowrs = "=0.2.0"
image = "=0.24.9"
nokhwa = { version = "=0.10.11", default-features = false, features = ["camera-sync-impl"] }
serde = { version = "1", features = ["derive"] }
