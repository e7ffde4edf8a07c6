[package]
name = "brainsurf"
version = "0.1.0"
edition = "2021"
publish = false

[dependencies]
url = "*"
reqwest = { version = "*", default-features = false, features = ["blocking", "json", "rustls-tls"] }
serde = { version = "*", features = ["derive"] }
walkdir = "*"
open = "*"
