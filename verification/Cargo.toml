[package]
name = "cosmos_paging"
version = "0.1.0"
edition = "2021"
publish = false

[dependencies]
azure_core = "0.1"
http = "0.2"
serde = { version = "1", features = ["derive"] }
serde_json = "1"
uuid = "0.8"
futures = "0.3"
