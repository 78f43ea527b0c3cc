[package]
name = "radico"
version = "0.1.0"
edition = "2021"
publish = false

[dependencies]
anyhow = "*"
async-channel = "*"
base64 = "*"
chrono = "*"
colored = "*"
crossterm = "*"
fdk-aac = "*"
inquire = "*"
md5 = "*"
mojimoji-rs = "*"
rand = "*"
regex = "*"
reqwest = { version = "*", default-features = false, features = ["cookies", "gzip"] }
rodio = "*"
serde = { version = "*", features = ["derive"] }
serde-xml-rs = "*"
tokio = { version = "*", features = ["rt-multi-thread", "macros", "sync", "time"] }
unicode-normalization = "*"
