[package]
name = "chess_gif"
version = "0.1.0"
edition = "2021"
publish = false

[dependencies]
shakmaty = "=0.27.3"
serde = { version = "=1.0.229", features = ["derive"] }
serde_with = "=3.24.0"
axum = "=0.8.9"
futures = "=0.3.34"
lambda_http = "=1.3.2"
tokio = { version = "=1.54.1", features = ["macros", "rt-multi-thread"] }
