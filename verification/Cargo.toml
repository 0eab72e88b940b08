[package]
name = "rynk"
version = "0.1.0"
edition = "2021"
publish = false

[dependencies]
heapless = "=0.9.3"
log = "=0.4.35"
postcard = { version = "=1.1.3", features = ["use-std"] }
rmk-types = { version = "=0.3.0", features = ["host"] }
serde = { version = "=1.0.229", features = ["derive"] }
thiserror = "=2.0.21"
tokio = { version = "=1.54.1", features = ["rt", "time", "io-util", "macros"] }
tokio-serial = "=5.5.0"
