[package]
name = "zetta_chat"
version = "0.1.0"
edition = "2021"
publish = false

[dependencies]
tokio = { version = "1", features = ["full"] }
unicode-width = "0.1"
ratatui = "0.26"
crossterm = "0.27"
tracing = "0.1"
tracing-appender = "0.2"
tracing-subscriber = "0.3"
zetta-transport = "*"
