[package]
name = "spotify_sync"
version = "0.1.0"
edition = "2021"
publish = false

[dependencies]
rspotify = "=0.10.0"
tokio = { version = "1", features = ["sync", "macros", "rt"] }
serde_json = "1"
failure = "0.1"
