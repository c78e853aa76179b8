[package]
name = "compose2containerapps"
version = "0.1.0"
edition = "2021"
publish = false

[dependencies]
anyhow = "1"
clap = "2"
compose_yml = "*"
custom_error = "1"
dialoguer = { version = "0.10", features = ["fuzzy-select"] }
duct = "0.13"
env_logger = "0.9"
lazy_static = "1"
log = "0.4"
regex = "1"
serde = { version = "1", features = ["derive"] }
serde_json = "1"
serde_yaml = "0.8"
