[package]
name = "duo_auth"
version = "0.1.0"
edition = "2021"
publish = false

[dependencies]
hmac = "*"
sha1 = "*"
hex = "*"
chrono = "*"
urlencoding = "*"
url = "*"
serde = "*"
serde_json = "*"
reqwest = { version = "*", default-features = false }
tokio = { version = "*", default-features = false, features = ["time"] }
