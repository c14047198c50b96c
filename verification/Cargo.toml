[package]
name = "dms_config"
version = "0.1.0"
edition = "2021"
publish = false

[dependencies]
serde_json = "1"
ratatui = "0.30"
crossterm = "0.28"
