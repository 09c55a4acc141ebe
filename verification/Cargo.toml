[package]
name = "script_io"
version = "0.1.0"
edition = "2021"
publish = false

[dependencies]
instant = "0.1"
rand = { version = "0.8", default-features = false, features = ["small_rng"] }
