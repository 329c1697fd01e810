[package]
name = "transcode_rs"
version = "0.1.0"
edition = "2021"
publish = false

[dependencies]
ahash = "=0.8.12"
anyhow = "1"
async-atomic = "0.1"
async-priority-channel = "=0.2.0"
async-tempfile = "=0.8.0"
bytesize = "=1.3.3"
clap = { version = "4", features = ["derive"] }
ffmpeg-sidecar = { version = "=2.7.0", default-features = false }
ffprobe = "=0.4.0"
futures = "0.3"
human-panic = "=2.0.8"
humantime = "=2.4.0"
indicatif = "=0.18.6"
par-stream = { version = "=0.10.2", features = ["runtime-tokio"] }
priority-queue = "=2.7.0"
shellexpand = { version = "=3.1.2", features = ["path"] }
strum = { version = "=0.28.0", features = ["derive"] }
thiserror = "1"
thread-priority = "=3.1.1"
tikv-jemallocator = "=0.7.0"
tokio = { version = "1", features = ["full"] }
tokio-stream = "0.1"
tracing = "0.1"
tracing-indicatif = "=0.3.14"
tracing-subscriber = { version = "0.3", features = ["env-filter"] }
walkdir = "2"
