[package]
name = "oxid"
version = "0.1.0"
edition = "2021"
publish = false

[dependencies]
nucleo-matcher = "*"
anyhow = "*"
chrono = "*"
clap = { version = "*", features = ["derive"] }
crossterm = "*"
directories = "*"
pulldown-cmark = "*"
ratatui = "*"
serde = { version = "*", features = ["derive"] }
toml = "*"
tui-textarea = "*"
walkdir = "*"
