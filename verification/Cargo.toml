[package]
name = "openrustmap"
version = "0.1.0"
edition = "2021"
publish = false

[dependencies]
anyhow = "1"
crossbeam-channel = "0.5"
crossterm = "0.28"
directories = "5"
flate2 = "1"
open-vector-tile = "*"
ratatui = "0.29"
reqwest = { version = "0.12", default-features = false, features = ["blocking", "json", "rustls-tls"] }
rtrb = "0.3"
serde = { version = "1", features = ["derive"] }
symphonia = { version = "0.5", features = ["mp3", "aac", "isomp4"] }
toml = "0.8"
urlencoding = "2"
