[package]
name = "mixtuur"
version = "0.1.1"
edition = "2021"
publish = false

[dependencies]
anyhow = "1"
clap = { version = "4", features = ["derive"] }
colored = "*"
dirs = "*"
palette = "0.7"
quick-xml = "*"
