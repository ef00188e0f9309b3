[package]
name = "meme_agent"
version = "0.1.0"
edition = "2021"
publish = false

[dependencies]
serde = { version = "1", features = ["derive"] }
serde_json = "1"
spin = "0.9"
wee_alloc = "0.4"
