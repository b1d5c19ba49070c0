[package]
name = "varro"
version = "0.1.0"
edition = "2021"
publish = false

[dependencies]
clap = { version = "4", features = ["derive", "env"] }
dirs = "*"
ethers-core = "2"
ethers-providers = "2"
eyre = "*"
futures = "*"
serde = { version = "1", features = ["derive"] }
thiserror = "*"
tokio = { version = "1", features = ["full"] }
tokio-stream = "*"
toml = "*"
tracing = "*"
