[package]
name = "kleinwuerfel"
version = "0.1.0"
edition = "2021"
publish = false

[dependencies]
anyhow = "*"
clap = { version = "*", features = ["derive"] }
colored = "*"
crossbeam-channel = "*"
ctrlc = "*"
serde = "*"
serde_derive = "*"
toml = "*"
url = "*"
which = "*"
