[package]
name = "est"
version = "0.1.0"
edition = "2021"
publish = false

[dependencies]
icu_properties = "*"
url = "*"
serde = { version = "*", features = ["derive"] }
serde_json = "*"
toml = "*"
axum = "*"
tokio = { version = "*", features = ["rt-multi-thread", "macros", "net"] }
