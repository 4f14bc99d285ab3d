[package]
name = "textual_rs"
version = "0.2.0"
edition = "2021"
publish = false

[dependencies]
ratatui = "0.29"
crossterm = "0.28"
unicode-width = "0.2"
syn = { version = "2", features = ["full"] }
quote = "1"
proc-macro2 = "1"
