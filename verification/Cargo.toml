[package]
name = "lwas_core"
version = "0.1.0"
edition = "2021"
publish = false

[dependencies]
md5 = "*"
ignore = "*"
memmap2 = "*"
serde = { version = "*", features = ["derive"] }
serde_json = "*"
