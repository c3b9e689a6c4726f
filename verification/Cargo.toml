[package]
name = "system_tray_linux_aio"
version = "0.1.0"
edition = "2021"
publish = false

[dependencies]
serde = { version = "*", features = ["derive"] }
serde_json = "*"
toml = "*"
dirs = "*"
thiserror = "*"
tokio = { version = "*", features = ["rt-multi-thread", "macros", "signal", "time", "sync"] }
tracing = "*"
tracing-subscriber = { version = "*", features = ["env-filter", "fmt"] }
image = "*"
