[package]
name = "spectrum_view"
version = "0.1.0"
edition = "2021"
publish = false

[dependencies]
anyhow = "=1.0.104"
ratatui = "=0.30.2"
self_update = { version = "=1.3.0", default-features = false, features = ["reqwest", "native-tls", "github", "archive-tar", "compression-tar-gz", "progress-bar"] }
