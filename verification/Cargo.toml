[package]
name = "shadowpal"
version = "0.1.0"
edition = "2021"
publish = false

[dependencies]
rand = "0.8"
serde = { version = "1", features = ["derive"] }
ron = "0.6"
gtk = "0.8"
gio = "0.8"
