[package]
name = "portfolio"
version = "0.1.0"
edition = "2021"
publish = false

[dependencies]
dioxus = { version = "0.5", features = ["web"] }
dioxus-free-icons = { version = "0.8", features = ["font-awesome-brands", "feather"] }
dioxus-logger = "0.5"
tracing = "0.1"
