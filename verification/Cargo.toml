[package]
name = "plan"
version = "0.1.0"
edition = "2021"
publish = false

[dependencies]
bson = "0.13"
rocket = "0.4"
rocket_contrib = { version = "0.4", default-features = false, features = ["json"] }
serde = "1"
serde_derive = "1"
serde_json = "1"
