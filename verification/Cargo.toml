[package]
name = "sitegen"
version = "0.1.0"
edition = "2021"
publish = false

[dependencies]
chrono = { version = "0.4", default-features = false, features = ["std"] }
futures = "0.3"
notify = "4.0"
pulldown-cmark = { version = "0.9", default-features = false }
warp = { version = "0.3", default-features = false }
yaml-rust = "0.4"
