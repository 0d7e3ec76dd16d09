[package]
name = "clean_workspace"
version = "0.1.0"
edition = "2021"
publish = false

[dependencies]
anyhow = "1"
async-std = { version = "1", features = ["attributes"] }
clap = { version = "3", features = ["derive"] }
env_logger = "0.9"
git2 = "*"
git2_credentials = "*"
hcl-rs = "*"
http-cache-surf = "*"
log = "0.4"
miette = { version = "5", features = ["fancy"] }
serde = { version = "1", features = ["derive"] }
serde_json = "1"
surf = "2"
surf-governor = "*"
thiserror = "1"
url = "2"
walkdir = "2"
