[package]
name = "flingdlna"
version = "0.1.0"
edition = "2021"
publish = false

[dependencies]
url = "=2.5.8"
quick-xml = "=0.37.5"
uuid = { version = "=1.29.0", features = ["v4"] }
mime_guess = "=2.0.5"
tokio = { version = "=1.54.1", features = ["full"] }
serde = { version = "=1.0.229", features = ["derive"] }
toml = "=1.1.8"
dirs = "=7.0.0"
hostname = "=0.4.2"
anyhow = "=1.0.104"
tracing = "=0.1.44"
tracing-subscriber = "=0.3.23"
clap = { version = "=4.6.7", features = ["derive"] }
axum = "=0.8.9"
tower = { version = "=0.5.3", features = ["limit", "timeout", "util"] }
tower-http = { version = "=0.7.1", features = ["limit"] }
tokio-util = { version = "=0.7.20", features = ["io"] }
rusqlite = { version = "=0.41.1", features = ["bundled"] }
notify = "=8.2.1"
notify-debouncer-full = "=0.7.0"
lofty = "=0.25.5"
matroska = "=0.30.1"
mp4 = "=0.14.0"
socket2 = { version = "=0.6.5", features = ["all"] }
libc = "=0.2.191"
local-ip-address = "=0.6.13"
chrono = "=0.4.45"
futures = "=0.3.34"
