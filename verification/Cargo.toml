[package]
name = "tropical_pm"
version = "0.1.0"
edition = "2021"
publish = false

[dependencies]
ratatui = "*"
crossterm = "*"
git2 = { version = "*", default-features = false }
ureq = { version = "*", features = ["json"] }
serde = { version = "1", features = ["derive"] }
walkdir = "2"
fs_extra = "1"
