[package]
name = "music_dl"
version = "0.1.0"
edition = "2021"
publish = false

[dependencies]
sha2 = "0.10"
base64 = "0.22"
rand = "0.8"
tokio = { version = "1", features = ["rt", "rt-multi-thread", "macros", "process", "io-util", "sync", "time", "net"] }
reqwest = { version = "0.12", default-features = false, features = ["json"] }
dirs = "5"
serde = { version = "1", features = ["derive"] }
serde_json = "1"
