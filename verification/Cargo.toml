[package]
name = "mongoac"
version = "0.1.0"
edition = "2021"
publish = false

[dependencies]
mongodb = { version = "=3.9.1", default-features = false, features = ["compat-3-3-0", "bson-3", "rustls-tls", "dns-resolver", "zlib-compression", "zstd-compression", "snappy-compression"] }
tokio = { version = "=1.54.1", features = ["rt", "time", "sync", "macros"] }
futures-util = "=0.3.34"
parking_lot = "=0.12.5"
serde = { version = "=1.0.229", features = ["derive"] }
num_enum = "=0.7.6"
strum = { version = "=0.27.2", features = ["derive"] }
cbindgen = { version = "=0.29.4", default-features = false }
