[package]
name = "termrain"
version = "0.1.0"
edition = "2021"
publish = false

[dependencies]
anyhow = "1"
async-trait = "0.1"
chrono = "0.4"
clap = { version = "4", features = ["derive"] }
clap_complete = "4"
crossterm = { version = "*", features = ["event-stream"] }
futures = "0.3"
image = { version = "*", default-features = false, features = ["png", "jpeg"] }
ratatui = "*"
ratatui-image = { version = "*", default-features = false }
reqwest = { version = "0.12", default-features = false, features = ["json", "rustls-tls"] }
serde = { version = "1", features = ["derive"] }
serde_json = "1"
tokio = { version = "1", features = ["full"] }
toml = "*"
tracing = "0.1"
unicode-width = "*"
urlencoding = "2"
