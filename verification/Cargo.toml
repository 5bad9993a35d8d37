[package]
name = "jfi"
version = "0.1.0"
edition = "2021"
publish = false

[dependencies]
regex = "=1.13.1"
urlencoding = "=2.1.3"
reqwest = { version = "=0.12.28", default-features = false, features = ["json", "blocking"] }
serde = { version = "=1.0.229", features = ["derive"] }
serde_json = "=1.0.154"
dotenv-parser = "=0.1.3"
json = "=0.12.4"
size = { version = "=0.6.0", features = ["serde"] }
tokio = { version = "=1.54.1", features = ["full"] }
futures = "=0.3.34"
tracing = "=0.1.44"
ignore = "=0.4.34"
etcetera = "=0.11.0"
toml = "=1.1.8"
once_cell = "=1.21.4"
async-trait = "=0.1.92"
governor = "=0.10.4"
ratatui = "0.30"
crossterm = "0.29"
