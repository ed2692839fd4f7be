[package]
name = "rambt"
version = "0.1.0"
edition = "2021"
publish = false

[dependencies]
anyhow = "=1.0.104"
clap = "=4.6.7"
crossterm = "=0.29.0"
dirs = "=7.0.0"
futures = "=0.3.34"
musicbrainz_rs = { version = "=0.14.0", features = ["async", "rustls"] }
ratatui = "=0.30.2"
rusqlite = { version = "=0.40.2", features = ["bundled"] }
serde = "=1.0.229"
serde_json = "=1.0.154"
tokio = { version = "=1.54.1", features = ["macros", "rt-multi-thread"] }
