[package]
name = "dysk"
version = "0.1.0"
edition = "2021"
publish = false

[dependencies]
clap = { version = "*", features = ["derive"] }
lfs-core = "*"
libc = "*"
serde_json = "*"
termimad = "*"
