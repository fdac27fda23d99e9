[package]
name = "wally_package_types"
version = "1.4.0"
edition = "2021"
publish = false

[dependencies]
full_moon = { version = "1", features = ["luau"] }
anyhow = "1"
clap = { version = "4", features = ["derive"] }
console = "0.15"
env_logger = "0.11"
log = "0.4"
serde = { version = "1", features = ["derive"] }
serde_json = "1"
