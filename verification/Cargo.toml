[package]
name = "spacers"
version = "0.2.0"
edition = "2021"
publish = false

[dependencies]
printcad-bench-sdk = "=0.1.3"
serde = { version = "=1.0.229", features = ["derive"] }
