[package]
name = "batch_renamer"
version = "0.1.0"
edition = "2021"
publish = false

[dependencies]
anyhow = "1"
clap = { version = "4", features = ["derive"] }
futures = "0.3"
tempfile = "3"
tokio = { version = "1", features = ["macros", "rt", "process", "fs"] }
