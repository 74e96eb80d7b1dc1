[package]
name = "vimcord"
version = "0.1.0"
edition = "2021"
publish = false

[dependencies]
crossterm = "=0.29.0"
dotenvy = "=0.15.7"
keyring-lib = "=1.0.3"
ratatui = "=0.30.2"
reqwest = { version = "=0.13.5", default-features = false, features = ["json"] }
serde_json = "=1.0.154"
tokio = { version = "=1.54.1", features = ["macros", "rt-multi-thread", "sync", "time", "fs", "io-util", "signal"] }
unicode-width = "=0.2.3"
