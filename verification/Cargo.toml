[package]
name = "async_sqlx_session"
version = "0.4.0"
edition = "2021"
publish = false

[dependencies]
async-session = "*"
async-std = "1"
base64 = "0.13"
log = "0.4"
serde_json = "1"
sqlx = { version = "*", default-features = false, features = ["mysql", "sqlite", "runtime-async-std", "time", "chrono"] }
thiserror = "1"
time = "0.3"
