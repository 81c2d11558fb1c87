[package]
name = "svbony_ai_assistant"
version = "0.1.0"
edition = "2021"
publish = false

[dependencies]
anyhow = "*"
clap = "*"
dirs = "*"
env_logger = "*"
hidapi = "*"
libc = "*"
log = "*"
nix = { version = "*", features = ["signal", "process"] }
open = "*"
serde = { version = "*", features = ["derive"] }
serde_json = "*"
tokio = { version = "*", features = ["rt-multi-thread", "macros", "process", "signal", "time"] }
