[package]
name = "jnv_editor"
version = "0.1.0"
edition = "2021"
publish = false

[dependencies]
anyhow = "=1.0.104"
clap = { version = "=4.6.7", features = ["derive"] }
crossterm = "=0.28.1"
promkit = { version = "=0.9.1", features = ["readline"] }
tokio = { version = "=1.53.2", features = ["rt", "macros", "rt-multi-thread"] }
