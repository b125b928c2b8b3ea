[package]
name = "yubitui"
version = "0.1.0"
edition = "2021"
publish = false

[dependencies]
sha2 = "*"
x509-parser = "*"
oid-registry = "*"
des = "*"
cipher = "*"
toml = "*"
anyhow = "*"
clap = { version = "*", features = ["derive"] }
dirs = "*"
pcsc = "*"
ctap-hid-fido2 = "*"
hidapi = "*"
chrono = "*"
serde = { version = "*", features = ["derive"] }
