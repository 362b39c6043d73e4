[package]
name = "bootsim"
version = "0.1.0"
edition = "2021"
publish = false

[dependencies]
rand = "=0.3.23"
ring = "=0.17.14"
docopt = "=1.1.1"
serde = { version = "=1.0.229", features = ["derive"] }
serde_derive = "=1.0.229"
log = "=0.4.34"
env_logger = "=0.11.11"
libc = "=0.2.191"
error-chain = "=0.12.4"
pem = "*"
untrusted = "=0.9.0"
