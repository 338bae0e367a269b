[package]
name = "tuincremental"
version = "0.1.0"
edition = "2021"
publish = false

[dependencies]
ratatui = { version = "=0.30.2", features = ["unstable-rendered-line-info"] }
crossterm = "=0.29.0"
color-eyre = "=0.6.5"
postcard = { version = "=1.1.3", features = ["alloc"] }
serde = { version = "=1.0.229", features = ["derive"] }
tui-widget-list = "=0.15.3"
format_num = "=0.1.0"
