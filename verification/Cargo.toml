[package]
name = "yubi"
version = "0.1.0"
edition = "2021"
publish = false

[dependencies]
anyhow = "1"
async-trait = "0.1"
clap = { version = "3", features = ["derive"] }
env_logger = "*"
googapis = { version = "0.6", features = ["google-container-v1", "google-cloud-sql-v1"] }
gouth = "0.2"
log = "0.4"
serde = { version = "1", features = ["derive"] }
serde_yaml = "0.9"
tokio = { version = "1", features = ["macros", "rt-multi-thread"] }
tonic = { version = "0.6", features = ["tls"] }
