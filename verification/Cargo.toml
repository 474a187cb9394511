[package]
name = "axhash-map"
version = "0.1.0"
edition = "2021"
publish = false

[dependencies]
axhash-core = "*"
hashbrown = { version = "*", default-features = false }
