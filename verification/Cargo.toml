[package]
name = "playback_core"
version = "0.1.0"
edition = "2021"
publish = false

[dependencies]
md5 = "0.7"
rodio = "0.19"
symphonia = "0.5"
walkdir = "2"
log = "0.4"
serde = { version = "1", features = ["derive"] }
thiserror = "1"
