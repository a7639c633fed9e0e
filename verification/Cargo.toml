[package]
name = "blog"
version = "0.1.0"
edition = "2021"
publish = false

[dependencies]
markdown = "*"
serde = { version = "1", features = ["derive"] }
serde_yaml = "0.9"
leptos = { version = "0.6", features = ["ssr"] }
leptos_meta = { version = "0.6", features = ["ssr"] }
leptos_router = { version = "0.6", features = ["ssr"] }
