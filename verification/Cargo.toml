[package]
name = "finder"
version = "0.1.0"
edition = "2021"
publish = false

[dependencies]
anyhow = "1"
caseless = "0.2"
clap = { version = "4", features = ["derive"] }
env_logger = "0.11"
grep-regex = "0.1"
grep-searcher = "0.1"
ignore = "0.4"
indicatif = "0.17"
log = "0.4"
regex = "1"
