[package]
name = "dbtui"
version = "0.1.0"
edition = "2021"
publish = false

[dependencies]
chrono = "0.4"
clap = { version = "4", features = ["derive"] }
color-eyre = "0.6"
crossterm = "0.28"
ratatui = "0.29"
scopeguard = "1"
sqlx = { version = "0.8", default-features = false, features = ["runtime-tokio", "sqlite", "mysql", "chrono"] }
tokio = { version = "1", features = ["rt-multi-thread", "macros", "sync", "time"] }
