[package]
name = "lyrics_overlay"
version = "0.1.0"
edition = "2021"
publish = false

[dependencies]
config = { version = "0.15", default-features = false, features = ["toml"] }
eframe = { version = "*", default-features = false, features = ["glow", "default_fonts", "x11"] }
egui = { version = "*", default-features = false }
oauth2 = "=5.0.0"
oneshot = "0.1"
reqwest = { version = "0.12", default-features = false, features = ["json", "rustls-tls", "charset", "http2"] }
serde = { version = "1", features = ["derive"] }
serde_json = "1"
thiserror = "2"
tokio = { version = "1", features = ["rt-multi-thread", "macros", "sync", "time"] }
toml = "0.8"
tracing = "0.1"
tracing-appender = "0.2"
tracing-subscriber = { version = "0.3", features = ["env-filter"] }
url = "=2.5.8"
warp = { version = "=0.4.3", features = ["server"] }
webbrowser = "1"
