[package]
name = "batchpatch"
version = "0.1.0"
edition = "2021"
publish = false

[dependencies]
clap = { version = "=4.6.7", features = ["derive"] }
colog = "=1.4.0"
git2 = { version = "=0.21.0", features = ["https", "ssh"] }
log = "=0.4.34"
octorust = "=0.10.0"
serde_json = "=1.0.151"
tokio = { version = "=1.53.2", features = ["rt-multi-thread"] }
