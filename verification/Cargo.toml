[package]
name = "opensensor"
version = "0.1.0"
edition = "2021"
publish = false

[dependencies]
flate2 = "=1.1.10"
chrono = "=0.4.45"
aws-sdk-s3 = { version = "=1.152.0", default-features = false }
clap = { version = "=4.6.7", features = ["derive"] }
tokio = { version = "=1.53.2", features = ["macros", "rt-multi-thread", "signal", "sync", "time"] }
redpanda = "=0.5.0"
async-trait = "=0.1.92"
thiserror = "=2.0.21"
tracing = "=0.1.44"
futures-core = "=0.3.34"
futures-util = "=0.3.34"
