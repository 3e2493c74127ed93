[package]
name = "iprr"
version = "0.1.0"
edition = "2021"
publish = false

[dependencies]
anyhow = "=1.0.104"
clap = { version = "=4.6.7", features = ["derive"] }
colored = "=3.1.1"
ctrlc = "=3.5.2"
futures = "=0.3.34"
is-terminal = "=0.4.17"
qqwry = "=0.1.1"
regex = "=1.13.1"
reqwest = { version = "=0.12.28", default-features = false, features = ["charset", "json", "rustls-tls"] }
serde = { version = "=1.0.229", features = ["derive"] }
serde_json = "=1.0.151"
tokio = { version = "=1.53.2", features = ["full"] }
