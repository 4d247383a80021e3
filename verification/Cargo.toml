[package]
name = "odt_creator"
version = "0.1.0"
edition = "2021"
publish = false

[dependencies]
chrono = "=0.4.45"
zip = { version = "=0.6.6", default-features = false, features = ["deflate"] }

[dev-dependencies]
quick-xml = "=0.31.0"
