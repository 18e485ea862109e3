[package]
name = "yakka"
version = "0.1.0"
edition = "2021"
publish = false

[dependencies]
anyhow = "1"
bincode = { version = "2", features = ["derive"] }
clap = { version = "4", features = ["derive"] }
ratatui = "0.29"
tokio = { version = "1", features = ["net", "rt-multi-thread", "macros", "time"] }
log = "0.4"
embedded-hal = "1"
embedded-hal-async = "1"
embassy-sync = "*"
