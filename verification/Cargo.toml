[package]
name = "url_shortener"
version = "0.1.0"
edition = "2021"
publish = false

[dependencies]
fastly = "*"
log = "0.4"
log-fastly = "*"
serde = { version = "1", features = ["derive"] }
serde_json = "1"
