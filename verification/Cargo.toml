[package]
name = "zed_anydiff"
version = "0.1.0"
edition = "2021"
publish = false

[dependencies]
dirs = "6"
serde_json = "1"
