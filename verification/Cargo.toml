[package]
name = "cursor_poller"
version = "0.1.0"
edition = "2021"
publish = false

[dependencies]
sha2 = "=0.10.9"
base64 = "=0.22.1"
jieba-rs = "=0.7.4"
serde = { version = "=1.0.229", features = ["derive"] }
image = "=0.25.10"
enigo = "=0.0.14"
