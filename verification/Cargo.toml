[package]
name = "tihu"
version = "0.1.0"
edition = "2021"
publish = false

[dependencies]
anyhow = "=1.0.104"
async-trait = "=0.1.92"
bytes = "=1.12.1"
chrono = "=0.4.45"
futures = "=0.3.34"
headers = "=0.4.2"
http = "=1.5.0"
http-body-util = "=0.1.5"
hyper = "=1.12.0"
integer-encoding = "=4.1.0"
log = "=0.4.34"
pin-project = "=1.1.13"
quick-xml = "=0.37.5"
serde = { version = "=1.0.229", features = ["derive"] }
serde_json = "=1.0.154"
sync_wrapper = { version = "=1.0.2", features = ["futures"] }
thiserror = "=2.0.21"
uuid = { version = "=1.29.0", features = ["serde"] }
