[package]
name = "search_query"
version = "0.1.0"
edition = "2021"
publish = false

[dependencies]
regex = "1"

[dev-dependencies]
nom = { version = "6", default-features = false }
