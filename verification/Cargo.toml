[package]
name = "bluefang_player"
version = "0.1.0"
edition = "2021"
publish = false

[dependencies]
bytes = "1"
directories = "5"
iced = { version = "0.12", default-features = false, features = ["tokio", "advanced"] }
minreq = { version = "2", features = ["https"] }
once_cell = "1"
png = "0.17"
portable-atomic = { version = "1", features = ["float"] }
ringbuf = "0.4"
ron = "0.8"
rubato = "0.15"
serde = { version = "1", features = ["derive"] }
tokio = { version = "1", features = ["rt", "sync", "fs"] }
tracing = "0.1"
tracing-appender = "0.2"
tracing-panic = "0.1"
tracing-subscriber = { version = "0.3", features = ["env-filter"] }
