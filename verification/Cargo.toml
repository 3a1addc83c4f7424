[package]
name = "whist"
version = "0.1.0"
edition = "2021"
publish = false

[dependencies]
itertools = "*"
serde = { version = "*", features = ["derive"] }
thiserror = "*"
async-trait = "*"
