[package]
name = "anime_game_core"
version = "0.1.0"
edition = "2021"
publish = false

[dependencies]
anyhow = "1"
flate2 = "1"
fs_extra = "1"
md-5 = "0.10"
minreq = { version = "2", features = ["json-using-serde"] }
regex = "1"
serde = { version = "1", features = ["derive"] }
serde_json = "1"
thiserror = "1"
