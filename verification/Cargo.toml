[package]
name = "degressly_core"
version = "0.1.0"
edition = "2021"
publish = false

[dependencies]
actix-web = { version = "4", default-features = false, features = ["macros"] }
async-trait = "0.1"
config = { version = "0.14", default-features = false, features = ["yaml"] }
env_logger = "0.11"
log = "0.4"
rdkafka = "0.36"
reqwest = { version = "0.12", default-features = false }
serde = { version = "1", features = ["derive"] }
serde_json = "1"
thiserror = "1"
tokio = { version = "1", features = ["rt-multi-thread", "macros", "time"] }
