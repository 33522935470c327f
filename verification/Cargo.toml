[package]
name = "peaks_service"
version = "0.1.0"
edition = "2021"
publish = false

[dependencies]
proteus_audio = "*"
reqwest = { version = "*", default-features = false, features = ["blocking"] }
axum = "*"
axum_typed_multipart = "*"
tokio = { version = "*", features = ["full"] }
tempfile = "*"
tracing-subscriber = "*"
