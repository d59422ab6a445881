[package]
name = "benefits_ofx"
version = "0.1.0"
edition = "2021"
publish = false

[dependencies]
anyhow = "1"
chrono = "0.4"
clap = { version = "4", features = ["derive", "env"] }
dotenvy = "0.15"
reqwest = { version = "0.12", features = ["json"] }
secrecy = "0.10"
serde = { version = "1", features = ["derive"] }
serde_json = "1"
serde-xml-rs = "0.6"
tokio = { version = "1", features = ["macros", "rt-multi-thread"] }

[dev-dependencies]
xml-rs = "0.8"
