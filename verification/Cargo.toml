[package]
name = "bootsync"
version = "0.1.0"
edition = "2021"
publish = false

[dependencies]
anyhow = "*"
log = "*"
tokio = { version = "*", features = ["rt-multi-thread", "macros"] }
