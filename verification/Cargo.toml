[package]
name = "nevermail"
version = "0.1.0"
edition = "2021"
publish = false

[dependencies]
ammonia = "*"
html2md = "*"
html2text = "*"
keyring = "*"
log = "*"
open = "*"
rusqlite = { version = "*", features = ["bundled"] }
serde = { version = "*", features = ["derive"] }
