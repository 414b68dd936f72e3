[package]
name = "miuu_replay"
version = "0.1.0"
edition = "2021"
publish = false

[dependencies]
miniz_oxide = "*"
rmp-serde = "*"
serde = { version = "*", features = ["derive"] }
csharp_binary_encoding = "*"
