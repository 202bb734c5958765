[package]
name = "forgeflow"
version = "0.1.0"
edition = "2021"
publish = false

[dependencies]
async-trait = "*"
chrono = "*"
handlebars = "*"
humantime = "*"
serde = { version = "*", features = ["derive"] }
serde_json = "*"
tokio = { version = "*", features = ["full"] }
tokio-retry = "*"
uuid = { version = "*", features = ["v4"] }
