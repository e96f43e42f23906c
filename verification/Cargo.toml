[package]
name = "image_poster"
version = "0.1.0"
edition = "2021"
publish = false

[dependencies]
rand = "*"
toml = "*"
glob = "*"
bsky-sdk = "*"
tokio = { version = "*", features = ["macros", "rt-multi-thread", "fs", "io-util"] }
chrono-tz = "*"
tokio_schedule = "*"
