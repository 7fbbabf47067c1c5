[package]
name = "chelsea_lib"
version = "0.1.0"
edition = "2021"
publish = false

[dependencies]
uuid = { version = "=1.29.0", features = ["v4", "serde"] }
ipnet = "=2.12.2"
macaddr = "=1.0.1"
serde = { version = "=1.0.229", features = ["derive"] }
serde_json = "=1.0.154"
thiserror = "=2.0.21"
anyhow = "=1.0.104"
tokio = { version = "=1.54.1", features = ["full"] }
nftables = "=0.6.3"
nix = { version = "*", features = ["signal", "process"] }
