[package]
name = "librecast"
version = "0.1.0"
edition = "2021"
publish = false

[dependencies]
async-trait = "=0.1.92"
chrono = "=0.4.45"
clipboard = "0.5"
color-eyre = { version = "=0.6.5", default-features = false }
crossterm = "=0.28.1"
home = "=0.5.12"
quick-xml = "=0.41.0"
ratatui = "=0.29.0"
rss = "=2.1.2"
sea-orm = { version = "=1.1.20", default-features = false, features = ["macros", "sqlx-sqlite", "runtime-tokio-rustls", "with-chrono", "with-uuid"] }
sea-orm-migration = { version = "=1.1.20", default-features = false, features = ["sqlx-sqlite", "runtime-tokio-rustls"] }
serde_json = "=1.0.154"
tokio = { version = "=1.54.1", features = ["rt-multi-thread", "macros", "sync", "time"] }
ureq = { version = "=2.12.1", default-features = false, features = ["tls"] }
