[package]
name = "voiturerc"
version = "0.1.0"
edition = "2021"
publish = false

[dependencies]
rppal = "=0.22.1"
tokio = { version = "=1.53.2", features = ["full"] }
tokio-util = "=0.7.19"
futures = "=0.3.34"
clap = { version = "=4.6.7", features = ["derive"] }
bincode = "=2.0.1"
nmea-parser = "=0.11.0"
anyhow = "=1.0.104"
