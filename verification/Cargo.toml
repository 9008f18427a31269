[package]
name = "ssm_monitor"
version = "0.1.0"
edition = "2021"
publish = false

[dependencies]
anyhow = "1"
aws-config = { version = "=1.13.0", features = ["behavior-version-latest"] }
aws-sdk-cloudwatch = "=1.140.0"
aws-sdk-ssm = "=1.133.0"
clap = { version = "4", features = ["derive"] }
crossterm = "=0.28.1"
ratatui = "=0.29.0"
tokio = { version = "1", features = ["macros", "rt-multi-thread", "sync", "time"] }
