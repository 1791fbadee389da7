[package]
name = "xero_toolkit"
version = "0.1.0"
edition = "2021"
publish = false

[dependencies]
gtk4 = "0.10"
libadwaita = { version = "0.8", features = ["v1_5"] }
vte4 = "0.9"
log = "0.4"
simple_logger = "*"
rand = "0.9"
serde_json = "1"
tokio = { version = "1", features = ["rt-multi-thread", "net", "io-util", "time"] }
anyhow = "1"
dirs = "*"
libc = "0.2"
strip-ansi-escapes = "*"
