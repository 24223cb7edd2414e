[package]
name = "aspigro"
version = "0.1.0"
edition = "2021"
publish = false

[dependencies]
async-trait = "0.1"
dotenvy = "0.15"
futures = "0.3"
reqwest = { version = "0.12", default-features = false, features = ["json", "rustls-tls"] }
serde = { version = "1", features = ["derive"] }
tokio = { version = "1", features = ["macros", "rt-multi-thread", "fs", "time"] }
