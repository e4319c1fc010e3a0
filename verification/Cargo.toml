[package]
name = "files"
version = "0.1.0"
edition = "2021"
publish = false

[dependencies]
anyhow = "*"
camino = "*"
clap = { version = "*", features = ["derive"] }
dirs = "*"
faccess = "*"
file-id = "*"
serde = { version = "*", features = ["derive"] }
serde_json = "*"
shellexpand = "*"
walkdir = "*"
