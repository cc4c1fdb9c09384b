[package]
name = "leviath_dashboard"
version = "0.1.0"
edition = "2021"
publish = false

[dependencies]
chrono = "0.4"
crossterm = "0.28"
dirs = "*"
ratatui = { version = "0.29", default-features = false, features = ["unstable-rendered-line-info"] }
tokio = { version = "1", features = ["sync", "rt"] }
unicode-width = "0.2"
