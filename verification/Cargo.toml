[package]
name = "dnd_index"
version = "0.1.0"
edition = "2021"
publish = false

[dependencies]
serde_json = "=1.0.151"
takecell = "=0.1.1"
teloxide = "=0.17.0"
tokio = { version = "=1.53.2", features = ["rt-multi-thread", "macros"] }
tokio-stream = "*"
warp = { version = "=0.4.3", features = ["server"] }
