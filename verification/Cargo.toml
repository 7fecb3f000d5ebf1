[package]
name = "flussomodoro"
version = "0.1.0"
edition = "2021"
publish = false

[dependencies]
ratatui = "*"
crossterm = "*"
tokio = { version = "*", features = ["macros", "rt-multi-thread", "time"] }
futures = "*"
clap = { version = "*", features = ["derive"] }
notify-rust = "*"
time-fmt = "*"
