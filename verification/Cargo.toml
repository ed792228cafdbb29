[package]
name = "spotifyd"
version = "0.1.0"
edition = "2021"
publish = false

[dependencies]
futures = "0.3"
librespot = { version = "=0.2.0", default-features = false }
