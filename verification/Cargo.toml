[package]
name = "suri_sprint"
version = "0.1.0"
edition = "2021"
publish = false

[dependencies]
rand = "0.7"
serde = { version = "1", features = ["derive"] }
ron = "0.5"
ggez = "0.5.1"
specs = { version = "0.16", default-features = false }
specs-derive = "0.4"
wrapped2d = "*"
