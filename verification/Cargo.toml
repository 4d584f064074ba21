[package]
name = "o365-cli"
version = "0.1.0"
edition = "2021"
publish = false

[dependencies]
anyhow = "1"
chrono = "0.4"
clap = { version = "4", features = ["derive"] }
crossterm = "0.28"
inquire = "0.7"
jsonwebtoken = "9"
keyring = { version = "3", features = ["apple-native", "windows-native", "linux-native"] }
log = "0.4"
oauth2 = { version = "5", default-features = false }
ratatui = "0.29"
reqwest = { version = "0.12", default-features = false, features = ["rustls-tls"] }
serde = { version = "1", features = ["derive"] }
serde_json = "1"
simplelog = "0.12"
tokio = { version = "1", features = ["macros", "rt-multi-thread"] }
url = "2"
webbrowser = "1"
