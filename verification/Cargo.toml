[package]
name = "cce_gallery"
version = "0.1.0"
edition = "2021"
publish = false

[dependencies]
calloop = "0.14.5"
wayland-client = "0.31.15"
serde_json = "1.0.154"
