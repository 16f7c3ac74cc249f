[package]
name = "roon_tui"
version = "0.1.0"
edition = "2021"
publish = false

[dependencies]
any_ascii = "=0.3.3"
rand = "=0.8.8"
roon-api = "=0.5.3"
tokio = { version = "=1.54.1", features = ["rt-multi-thread", "macros", "sync", "time"] }
serde = { version = "=1.0.229", features = ["derive"] }
serde_json = "=1.0.154"
crossterm = "=0.29.0"
ratatui = "=0.30.2"
clap = { version = "=4.6.7", features = ["derive"] }
eyre = "=0.6.14"
log = "=0.4.34"
simplelog = "=0.12.2"
time = "=0.3.55"
chrono = "=0.4.45"
typetag = "=0.2.23"
