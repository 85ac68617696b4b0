[package]
name = "vsp_router"
version = "0.1.0"
edition = "2021"
publish = false

[dependencies]
anyhow = "1"
bytes = "1"
camino = "1"
clap = { version = "4", features = ["derive"] }
color-print = "*"
futures = "0.3"
futures-util = "0.3"
thiserror = "*"
tokio = { version = "1", features = ["io-util", "macros", "rt-multi-thread", "signal"] }
tokio-serial = { version = "5", default-features = false }
tokio-stream = "0.1"
tokio-util = { version = "0.7", features = ["io"] }
tracing = "0.1"
tracing-subscriber = "0.3"
