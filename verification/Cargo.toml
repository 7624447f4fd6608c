[package]
name = "snm"
version = "0.1.0"
edition = "2021"
publish = false

[dependencies]
regex = "*"
clap = { version = "*", features = ["derive"] }
clap_complete = "*"
clap_complete_fig = "*"
colored = "*"
dialoguer = "*"
dirs = "*"
env_logger = "*"
reqwest = { version = "*", default-features = false }
tokio = { version = "*", features = ["macros", "rt-multi-thread"] }
