[package]
name = "http_transport"
version = "0.1.0"
edition = "2021"
publish = false

[dependencies]
http = "*"
thiserror = "*"
ureq = "*"
reqwest = { version = "*", default-features = false, features = ["blocking"] }
curl = { version = "*", default-features = false }
