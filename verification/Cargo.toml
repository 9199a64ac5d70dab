[package]
name = "quoteapp"
version = "0.1.0"
edition = "2021"
publish = false

[dependencies]
rand = "0.9"
crossbeam = "0.8"
ctrlc = "3"
socket2 = "0.5"
tracing = "0.1"
tracing-subscriber = { version = "0.3", features = ["env-filter"] }
clap = { version = "4", features = ["derive"] }
anyhow = "1"
thiserror = "2"
log = "0.4"
