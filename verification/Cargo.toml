[package]
name = "quickjs_rusty"
version = "0.1.0"
edition = "2021"
publish = false

[dependencies]
anyhow = "1"
chrono = { version = "0.4", default-features = false, features = ["std"] }
log = "0.4"
num-bigint = "0.4"
num-traits = "0.2"
serde = "1"
thiserror = "1"
