[package]
name = "media_codec"
version = "0.1.0"
edition = "2021"
publish = false

[dependencies]
ndk-sys = { version = "=0.6.0", features = ["test", "media"] }
