[package]
name = "cargo_show"
version = "0.1.0"
edition = "2021"
publish = false

[dependencies]
serde_json = "*"
serde = { version = "*", features = ["derive"] }
docopt = "*"
g-k-crates-io-client = "=0.40.1"
curl = "*"
