[package]
name = "once_util"
version = "0.1.0"
edition = "2021"
publish = false

[dependencies]
cgmath = "0.18"
num = "0.4"
rustversion = "1"
serde = { version = "1", features = ["derive"] }
serde_derive = "1"
walkdir = "2"
