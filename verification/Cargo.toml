[package]
name = "wavelet_audio"
version = "0.1.0"
edition = "2021"
publish = false

[dependencies]
anyhow = "1"
clap = { version = "4", features = ["derive"] }
tokio = { version = "1", features = ["full"] }
tokio-stream = { version = "0.1", features = ["fs"] }
symphonia = { version = "*", features = ["mp3"] }
thiserror = "2"
rustfft = "6"
statrs = "*"
pyo3 = "0.26"
numpy = "0.26"
