[package]
name = "zed_roslyn"
version = "0.1.0"
edition = "2021"
publish = false

[dependencies]
serde_json = "*"
zed_extension_api = "*"
rust_search = "*"
