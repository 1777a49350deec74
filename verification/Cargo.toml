[package]
name = "ax"
version = "0.1.0"
edition = "2021"
publish = false

[dependencies]
iced-x86 = { version = "*", default-features = false, features = ["std", "decoder"] }
serde = { version = "*", features = ["derive"] }
