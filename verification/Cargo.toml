[package]
name = "aria2_downloader"
version = "0.1.0"
edition = "2021"
publish = false

[dependencies]
aria2-rs = { version = "=0.3.3", default-features = false }
thiserror = "=2.0.21"
tokio = { version = "=1.54.1", features = ["macros", "process", "rt", "sync", "time"] }
tracing = "=0.1.44"
