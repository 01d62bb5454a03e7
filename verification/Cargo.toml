[package]
name = "pr_report"
version = "0.1.0"
edition = "2021"
publish = false

[dependencies]
anyhow = "=1.0.104"
chrono = "=0.4.45"
octocrab = "=0.40.0"
serde_json = "=1.0.151"
tokio = { version = "=1.53.2", features = ["macros", "rt"] }
