[package]
name = "bundler"
version = "0.1.0"
edition = "2021"
publish = false

[dependencies]
ethers = { version = "2", default-features = false }
actix-web = { version = "4", default-features = false, features = ["macros"] }
serde = { version = "1", features = ["derive"] }
derive_more = "0.99"
bigdecimal = "0.4"
log = "0.4"
futures = "0.3"
lazy_static = "1"
reqwest = { version = "0.11", default-features = false }
