[package]
name = "cheese_paper"
version = "0.9.0"
edition = "2021"
publish = false

[dependencies]
toml_edit = "=0.25.18"
toml = "=1.1.8"
semver = { version = "=1.0.28", features = ["serde"] }
spellbook = "=0.4.2"
chardetng = "=1.0.0"
encoding_rs = "=0.8.44"
serde = { version = "=1.0.229", features = ["derive"] }
serde_json = "=1.0.154"
ureq = "=3.5.1"
log = "=0.4.35"
reqwest = { version = "=0.13.5", default-features = false }
