[package]
name = "basalt"
version = "0.1.0"
edition = "2021"
publish = false

[dependencies]
ratatui = "=0.29.0"
tui-textarea = "=0.7.0"
serde = { version = "=1.0.229", features = ["derive"] }
basalt-core = "=0.10.1"
toml = "=1.1.8"
