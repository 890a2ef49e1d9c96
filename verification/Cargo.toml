[package]
name = "roy"
version = "0.1.0"
edition = "2021"
publish = false

[dependencies]
reqwest = { version = "=0.13.5", default-features = false, features = ["blocking", "json"] }

[dev-dependencies]
threadpool = "*"
tiny_http = "=0.12.0"
