[package]
name = "dnsoverhttps"
version = "0.3.0"
edition = "2021"
publish = false

[dependencies]
env_logger = "0.11"
log = "0.4"
reqwest = { version = "0.12", features = ["blocking", "native-tls"] }
trust-dns = "0.17"
trust-dns-proto = "0.8"
url = "2"

[dev-dependencies]
base64 = "0.22"
