[package]
name = "gdut_net"
version = "0.1.0"
edition = "2021"
publish = false

[dependencies]
md-5 = "0.10"
md4 = "0.10"
sha1 = "0.10"
sha2 = "0.10"
base64 = "0.22"
serde = { version = "1", features = ["derive"] }
serde_json = "1"
toml = "0.8"
clap = { version = "4", features = ["derive"] }
anyhow = "1"
log = "0.4"
