[package]
name = "snatch"
version = "0.1.0"
edition = "2021"
publish = false

[dependencies]
serde_json = "*"
anyhow = "*"
chrono = "*"
fast_qr = "*"
image = { version = "*", default-features = false, features = ["png"] }
log = "*"
reqwest = { version = "*", default-features = false }
rqrr = "*"
terminal-menu = "*"
thirtyfour = "*"
tokio = { version = "*", features = ["rt", "time", "fs", "io-util", "macros"] }
