[package]
name = "sntry"
version = "0.1.0"
edition = "2021"
publish = false

[dependencies]
chrono = { version = "=0.4.45", features = ["serde"] }
clap = { version = "=4.6.7", features = ["derive"] }
clap_complete = "=4.6.11"
colored = "=3.1.1"
directories = "=6.0.0"
serde = { version = "=1.0.229", features = ["derive"] }
serde_json = "=1.0.154"
tabled = "=0.22.0"
tokio = { version = "=1.54.1", features = ["macros", "rt"] }
toml = "=1.2.1"
reqwest = { version = "=0.12.28", default-features = false, features = ["json", "rustls-tls"] }
