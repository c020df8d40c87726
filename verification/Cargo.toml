[package]
name = "quickview"
version = "0.1.0"
edition = "2021"
publish = false

[dependencies]
xdg = "2"
serde = { version = "1", features = ["derive"] }
open = "5"
tracing = "0.1"
tracing-subscriber = "0.3"
