[package]
name = "sniff"
version = "0.1.0"
edition = "2021"
publish = false

[dependencies]
worker = "*"
serde = { version = "*", features = ["derive"] }
utoipa = "*"
console_error_panic_hook = "*"
