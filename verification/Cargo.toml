[package]
name = "allerta_meteo"
version = "0.1.0"
edition = "2021"
publish = false

[dependencies]
unicode-width = "*"
argh = "*"
chrono = "*"
crossterm = "*"
ratatui = "*"
reqwest = { version = "*", default-features = false, features = ["blocking", "json", "rustls-tls"] }
serde = { version = "*", features = ["derive"] }
serde_json = "*"
serde_with = "*"
thiserror = "*"
url = "*"
