[package]
name = "network_manager"
version = "0.1.0"
edition = "2021"
publish = false

[dependencies]
serde_json = "1"
serde = { version = "1", features = ["derive"] }
regex = "1"
tokio = { version = "1", features = ["full"] }
async-trait = "0.1"
bollard = "*"
sysinfo = "*"
reqwest = { version = "0.12", default-features = false, features = ["json"] }
chrono = { version = "0.4", features = ["serde"] }
uuid = { version = "1", features = ["v4"] }
whoami = "1"
dirs = "*"
argon2 = "0.5"
chacha20poly1305 = "0.10"
rand = "0.8"
