[package]
name = "modbot"
version = "0.1.0"
edition = "2021"
publish = false

[dependencies]
teloxide = { version = "=0.17.0", default-features = false, features = ["macros", "rustls"] }
tokio = { version = "=1.54.1", features = ["rt-multi-thread", "macros", "time"] }
anyhow = "=1.0.104"
chrono = "=0.4.45"
dptree = "=0.5.1"
tracing = "=0.1.44"
url = "=2.5.8"
takecell = "<0.1.2"
