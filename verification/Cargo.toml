[package]
name = "tvm_build"
version = "0.1.0"
edition = "2021"
publish = false

[dependencies]
anyhow = "1"
cmake = "0.1"
dirs = "*"
git2 = "*"
serde = { version = "1", features = ["derive"] }
serde_json = "1"
structopt = "0.3"
thiserror = "1"
tracing = "0.1"
tracing-subscriber = "*"
