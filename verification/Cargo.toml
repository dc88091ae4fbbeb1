[package]
name = "noi"
version = "0.1.0"
edition = "2021"
publish = false

[dependencies]
cosmwasm-std = "=1.5.11"
cw-utils = "=1.0.3"
cw-storage-plus = "1"
cw2 = "1"
cosmwasm-schema = "1"
schemars = "0.8"
serde = { version = "1", features = ["derive"] }
thiserror = "1"
clap = { version = "3", features = ["derive"] }
osmo-bindings = "=0.6.0"
osmo-bindings-tokenfactory = "=0.6.0-p0mvn-v1"
