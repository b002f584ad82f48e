[package]
name = "repo_activity"
version = "0.1.0"
edition = "2021"
publish = false

[dependencies]
anyhow = "1"
async-trait = "0.1"
chrono = "=0.4.45"
clap = { version = "4", features = ["derive"] }
dateparser = "=0.2.1"
dirs = "*"
fs-err = "*"
futures = "0.3"
humantime = "=2.4.0"
octocrab = "0.32"
serde = { version = "1", features = ["derive"] }
serde_yaml = "0.9"
tokio = { version = "1", features = ["rt", "macros"] }
url = "2"
