[package]
name = "mixer_wrappers"
version = "0.1.0"
edition = "2021"
publish = false

[dependencies]
serde_json = "1"
rand = "0.8"
reqwest = { version = "*", default-features = false, features = ["blocking"] }
ws = "0.9"
url = "2"
