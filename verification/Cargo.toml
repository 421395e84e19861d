[package]
name = "dns_ip_sync"
version = "0.1.0"
edition = "2021"
publish = false

[dependencies]
local-ip-address = "*"
reqwest = { version = "0.11", features = ["json"] }
seahorse = "1.1"
serde = { version = "1", features = ["derive"] }
tokio = { version = "1", features = ["rt-multi-thread"] }
