[package]
name = "ron_codec"
version = "0.1.0"
edition = "2021"
publish = false

[dependencies]
base64 = "0.13"
indexmap = "1"
lexical = "5"
serde = { version = "1", features = ["derive"] }
