[package]
name = "dxe_readiness_validator"
version = "0.1.0"
edition = "2021"
publish = false

[dependencies]
patina = { version = "=24.1.1", default-features = false }
serde = { version = "=1.0.229", features = ["derive"] }
serde_json = { version = "=1.0.154", features = ["preserve_order"] }
clap = { version = "=4.6.7", features = ["derive"] }

[dev-dependencies]
goblin = "=0.10.7"
