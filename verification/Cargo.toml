[package]
name = "tombi_ext"
version = "0.1.0"
edition = "2021"
publish = false

[dependencies]
semver = "=1.0.28"
pep508_rs = "=0.9.2"
glob = "=0.3.4"
serde = { version = "=1.0.229", features = ["derive"] }
serde_json = "=1.0.154"
url = "=2.5.8"
