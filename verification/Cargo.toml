[package]
name = "rye_sync"
version = "0.1.0"
edition = "2021"
publish = false

[dependencies]
anyhow = "1"
console = "0.15"
serde_json = "1"
tempfile = "3"
