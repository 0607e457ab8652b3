[package]
name = "interop_bindings"
version = "0.1.0"
edition = "2021"
publish = false

[dependencies]
anyhow = "1"
clap = { version = "4", features = ["derive"] }
flagset = "*"
itertools = "*"
proc-macro2 = "1"
quote = "1"
serde = { version = "1", features = ["derive", "rc"] }
serde_json = "1"
