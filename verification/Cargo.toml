[package]
name = "spot_execution"
version = "0.1.0"
edition = "2021"
publish = false

[dependencies]
anyhow = "1"
async-trait = "0.1"
log = "0.4"
rust_decimal = { version = "1", default-features = false, features = ["std"] }
serde = { version = "1", features = ["derive"] }
thiserror = "2"
tokio = { version = "1", features = ["macros", "rt", "sync", "time"] }
ustr = "1"
