[package]
name = "steamaudio"
version = "0.1.0"
edition = "2021"
publish = false

[dependencies]
glam = "=0.24.2"
rodio = { version = "0.21", default-features = false }
thiserror = "=1.0.69"
tracing = "=0.1.44"
