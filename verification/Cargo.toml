[package]
name = "auditor"
version = "0.1.0"
edition = "2021"
publish = false

[dependencies]
base64 = "=0.13.1"
chrono = "0.4"
clap = "2"
hyper = { version = "=0.14.32", features = ["full"] }
log = "0.4"
lz4_flex = "=0.9.5"
num_cpus = "1"
rand = "=0.7.3"
rsa = { version = "=0.3.0", features = ["serde"] }
rsa-fdh = "=0.5.0"
serde = { version = "1", features = ["derive"] }
serde_derive = "1"
serde_json = "1"
sha2 = "=0.9.9"
systemstat = "0.1"
tokio = { version = "1", features = ["full"] }
toml = "0.5"
uuid = { version = "=0.8.2", features = ["v4"] }
