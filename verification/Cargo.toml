[package]
name = "nebulosus"
version = "0.1.0"
edition = "2021"
publish = false

[dependencies]
toml = { version = "=0.1.30", default-features = false }
clap = "=2.34.0"
log = "=0.3.9"
simple_logger = "=0.4.0"
hashicorp_vault = "0.2"
