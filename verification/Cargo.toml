[package]
name = "termnews"
version = "0.1.0"
edition = "2021"
publish = false

[dependencies]
rss = "*"
readability = "*"
html2text = "*"
url = "*"
reqwest = { version = "*", default-features = false }
tokio = { version = "*", features = ["rt-multi-thread", "macros", "sync", "time"] }
futures = "*"
crossterm = "*"
ratatui = "*"
serde = { version = "*", features = ["derive"] }
toml = "*"
directories = "*"
open = "*"
