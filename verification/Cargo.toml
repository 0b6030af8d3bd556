[package]
name = "resettime"
version = "0.1.0"
edition = "2021"
publish = false

[dependencies]
chrono = "*"
config = "*"
console = "*"
futures = "*"
lazy_static = "*"
log = "*"
log4rs = "*"
notify = "*"
obws = "*"
serde = { version = "*", features = ["derive"] }
strfmt = "*"
tokio = { version = "*", features = ["full"] }
tokio-retry = "*"
toml = "*"
