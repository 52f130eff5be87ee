[package]
name = "activate"
version = "0.1.0"
edition = "2021"
publish = false

[dependencies]
clap = { version = "*", features = ["derive"] }
log = "*"
pretty_env_logger = "*"
tokio = { version = "*", features = ["fs", "macros", "process", "rt-multi-thread"] }
