[package]
name = "cookie"
version = "0.1.0"
edition = "2021"
publish = false

[dependencies]
unicode-segmentation = "=1.13.3"
unicode-width = "=0.2.0"
textwrap = "=0.16.4"
uuid = { version = "=1.29.0", features = ["v4"] }
serde = { version = "=1.0.229", features = ["derive"] }
serde_json = "=1.0.154"
ratatui = "=0.29.0"
crossterm = { version = "=0.29.0", features = ["event-stream", "osc52"] }
tokio = { version = "=1.54.1", features = ["full"] }
tokio-stream = "=0.1.19"
futures-util = "=0.3.34"
color-eyre = "=0.6.5"
tracing = "=0.1.44"
tracing-appender = "=0.2.5"
tracing-subscriber = { version = "=0.3.23", features = ["env-filter"] }
tempfile = "=3.27.0"
dirs = "=6.0.0"
toml = "=0.8.23"
reqwest = { version = "=0.12.28", default-features = false, features = ["json", "rustls-tls"] }
reqwest-eventsource = "=0.6.0"
rusqlite = { version = "=0.32.1", features = ["bundled"] }
prost = "=0.13.5"
prost-types = "=0.13.5"
async-trait = "=0.1.92"
itertools = "=0.14.0"
pulldown-cmark = { version = "=0.13.6", default-features = false }
syntect = { version = "=5.3.0", default-features = false, features = ["default-fancy"] }
ansi-to-tui = "=7.0.0"
