[package]
name = "hodei_scan"
version = "0.1.0"
edition = "2021"
publish = false

[dependencies]
regex = "=1.13.1"
sha2 = "=0.10.9"
petgraph = "=0.6.5"
uuid = { version = "=1.29.0", features = ["v4"] }
serde = { version = "=1.0.229", features = ["derive"] }
serde_yaml = "=0.9.34"
toml = "=0.8.23"
clap = { version = "=4.6.7", features = ["derive"] }
git2 = { version = "=0.18.3", default-features = false }
walkdir = "=2.5.0"
bincode = "=1.3.3"
rocksdb = { version = "=0.21.0", default-features = false }
lsp-types = "=0.94.1"
