[package]
name = "dlrs"
version = "0.1.0"
edition = "2021"
publish = false

[dependencies]
anyhow = "=1.0.104"
bytes = "=1.12.1"
clap = { version = "=4.6.7", features = ["derive"] }
crossterm = "=0.29.0"
ctrlc = "=3.5.2"
error-chain = "=0.12.4"
futures = "=0.3.34"
quick-xml = { version = "=0.42.0", features = ["serialize"] }
reqwest = { version = "=0.11.27", default-features = false }
serde = { version = "=1.0.229", features = ["derive"] }
serde_repr = "=0.1.21"
serde_with = { version = "=3.24.0", features = ["chrono"] }
sevenz-rust = "=0.6.1"
sqlite = "=0.37.4"
tokio = { version = "=1.54.1", features = ["macros", "rt-multi-thread", "sync"] }
