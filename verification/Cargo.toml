[package]
name = "animate"
version = "0.1.0"
edition = "2021"
publish = false

[dependencies]
darling = "0.20"
syn = "2"
quote = "1"
proc-macro2 = "1"
ratatui = { version = "0.29", default-features = false }
