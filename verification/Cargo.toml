[package]
name = "freebox"
version = "0.1.0"
edition = "2021"
publish = false

[dependencies]
hmac-sha1 = "*"
actix-web = "*"
actix-rt = "*"
clap = { version = "*", features = ["derive"] }
rand = "*"
reqwest = { version = "*", default-features = false, features = ["blocking", "json", "rustls-tls"] }
serde = { version = "*", features = ["derive"] }
serde_json = "*"
anyhow = "*"
