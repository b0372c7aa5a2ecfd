[package]
name = "shortwave"
version = "0.1.0"
edition = "2021"
publish = false

[dependencies]
url = "2"
indexmap = "2"
sanitize-filename = "0.5"
Inflector = "0.11"
uuid = { version = "1", features = ["v4"] }
reqwest = { version = "0.12", default-features = false, features = ["blocking"] }
mdns-sd = "*"
log = "0.4"
