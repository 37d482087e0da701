[package]
name = "gimoji"
version = "0.1.0"
edition = "2021"
publish = false

[dependencies]
regex = "*"
arboard = "*"
clap = { version = "*", features = ["derive"] }
crossterm = "*"
dirs = "*"
nix = { version = "*", default-features = false, features = ["process"] }
ratatui = "*"
serde = { version = "*", features = ["derive"] }
serde_json = "*"
terminal-light = "*"
ureq = { version = "*", default-features = false }
