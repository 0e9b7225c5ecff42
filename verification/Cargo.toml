[package]
name = "auto_trait"
version = "0.1.0"
edition = "2021"
publish = false

[dependencies]
syn = { version = "1.0", features = ["full"] }
quote = "1.0"
proc-macro2 = "1.0"
