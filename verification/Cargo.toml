[package]
name = "functional-tests"
version = "0.1.0"
edition = "2021"
publish = false

[dependencies]
actix = "=0.13.5"
anyhow = "=1.0.104"
async-trait = "=0.1.92"
futures = { version = "=0.3.34", features = ["compat"] }
futures-locks = "=0.7.1"
mirai-annotations = "=1.12.0"
once_cell = "=1.21.4"
serde = { version = "=1.0.229", features = ["derive"] }
