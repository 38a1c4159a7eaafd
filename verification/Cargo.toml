[package]
name = "skia_safe"
version = "0.1.0"
edition = "2021"
publish = false

[dependencies]
serde_json = "1"
toml = "0.8"
flate2 = "1"
tar = "0.4"
cc = "1"
bindgen = "0.69"
