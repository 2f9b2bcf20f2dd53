[package]
name = "nameit"
version = "0.1.0"
edition = "2021"
publish = false

[dependencies]
scraper = "=0.18.1"
http = "=0.2.12"
reqwest = { version = "=0.11.27", default-features = false }
serde = { version = "=1.0.229", features = ["derive"] }
log = "=0.4.34"
simple_logger = "=4.3.3"
tokio = { version = "=1.54.1", features = ["rt-multi-thread", "macros"] }
tracing = "=0.1.44"
axum = "=0.6.20"
leptos = { version = "=0.5.7", features = ["ssr"] }
leptos_meta = { version = "=0.5.7", features = ["ssr"] }
leptos_router = { version = "=0.5.7", features = ["ssr"] }
leptos_axum = "=0.5.7"
leptos_query = "=0.3.0"
