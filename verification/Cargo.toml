[package]
name = "alarm_clock"
version = "0.1.0"
edition = "2021"
publish = false

[dependencies]
anyhow = "*"
chrono = "*"
cron = "*"
log = "*"
macaddr = "*"
serde = { version = "*", features = ["derive"] }
serde_json = "*"
