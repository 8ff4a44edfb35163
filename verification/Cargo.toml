[package]
name = "dynsys"
version = "0.1.0"
edition = "2021"
publish = false

[dependencies]
anyhow = "1"
genco = "0.17"
serde = { version = "1", features = ["derive"] }
typetag = "0.2"
