[package]
name = "iso_interval"
version = "0.1.0"
edition = "2021"
publish = false

[dependencies]
chrono = "=0.4.45"
pg_interval = "=0.6.0"
serde = "=1.0.229"
sqlx = { version = "=0.8.6", default-features = false, features = ["postgres"] }
time = "=0.3.55"
ts-rs = "=12.0.1"
