[package]
name = "sentinel-agent"
version = "0.1.0"
edition = "2021"
publish = false

[dependencies]
chrono = "0.4"
clap = "4"
dirs = "5"
gethostname = "0.4"
reqwest = { version = "0.11", features = ["json"] }
serde = { version = "1", features = ["derive"] }
serde_json = "1"
serde_yaml = "0.9"
sysinfo = "0.30"
thiserror = "1"
tokio = { version = "1", features = ["macros", "rt-multi-thread", "time", "fs"] }
