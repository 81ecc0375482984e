[package]
name = "slipmat"
version = "0.1.0"
edition = "2021"
publish = false

[dependencies]
anyhow = "1"
crossterm = { version = "*", features = ["event-stream"] }
futures = "0.3"
libpulse-binding = "2"
libpulse-simple-binding = "2"
mpris-server = "*"
ratatui = "*"
relm4 = { version = "*", features = ["libadwaita"] }
rustfft = "6"
serde = { version = "1", features = ["derive"] }
serde_json = "1"
tokio = { version = "1", features = ["rt", "macros", "net", "io-util", "sync", "time", "signal"] }
tracing = "0.1"
tracing-subscriber = { version = "0.3", features = ["env-filter"] }
