[package]
name = "tarmac"
version = "0.1.0"
edition = "2021"
publish = false

[dependencies]
anyhow = "*"
backtrace = "*"
clap = { version = "*", features = ["derive", "env"] }
env_logger = "*"
fs-err = "*"
image = "=0.25.10"
log = "*"
rbx_cookie = "*"
rbxcloud = "=0.17.0"
reqwest = { version = "*", default-features = false, features = ["blocking", "query"] }
resolve-path = "*"
secrecy = "*"
serde_json = "*"
tokio = { version = "*", features = ["full"] }
