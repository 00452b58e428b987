[package]
name = "subspace_cli"
version = "0.1.0"
edition = "2021"
publish = false

[dependencies]
bytesize = "*"
color-eyre = "*"
serde = { version = "*", features = ["derive"] }
toml = "*"
whoami = "*"
