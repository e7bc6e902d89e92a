[package]
name = "ateam_common_packets"
version = "0.1.0"
edition = "2021"
publish = false

[dependencies]
syn = { version = "2", features = ["full"] }
nalgebra = { version = "*", default-features = false }
