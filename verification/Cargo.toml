[package]
name = "math_quest"
version = "0.1.0"
edition = "2021"
publish = false

[dependencies]
sha2 = "0.10"
serde = { version = "1", features = ["derive"] }
schemars = "0.8"
secret-cosmwasm-std = { version = "1.1", features = ["random"] }
secret-toolkit = { version = "0.10", default-features = false, features = ["storage"] }
