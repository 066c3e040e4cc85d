[package]
name = "engage"
version = "0.1.0"
edition = "2021"
publish = false

[dependencies]
chrono = "=0.4.45"
clap = { version = "=4.6.7", features = ["derive"] }
crossterm = "=0.29.0"
figlet-rs = "=0.1.5"
ratatui = "=0.30.2"
tui-big-text = "=0.8.10"
