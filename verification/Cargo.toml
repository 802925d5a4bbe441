[package]
name = "tooters"
version = "0.1.0"
edition = "2021"
publish = false

[dependencies]
textwrap = "=0.16.4"
url = "=2.5.8"
html2text = "=0.5.1"
time = { version = "=0.3.55", features = ["formatting", "parsing"] }
ratatui = "=0.29.0"
crossterm = { version = "=0.28.1", features = ["event-stream"] }
tokio = { version = "=1.54.1", features = ["full"] }
tokio-util = "=0.7.20"
mastodon-async = { version = "=1.3.2", features = ["toml"] }
color-eyre = "=0.6.5"
tracing = "=0.1.44"
tracing-subscriber = { version = "=0.3.23", features = ["env-filter"] }
tracing-appender = "=0.2.5"
tui-input = "=0.14.0"
axum = "=0.7.9"
webbrowser = "=1.2.5"
xdg = "=2.5.2"
futures = "=0.3.34"
signal-hook = "=0.3.18"
signal-hook-tokio = { version = "=0.3.1", features = ["futures-v0_3"] }
