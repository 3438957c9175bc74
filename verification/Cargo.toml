[package]
name = "gitrs"
version = "0.1.0"
edition = "2021"
publish = false

[dependencies]
git2 = { version = "*", default-features = false }
anyhow = "1"
clap = "4"
env_logger = "*"
log = "0.4"

[dev-dependencies]
tempfile = "3"
