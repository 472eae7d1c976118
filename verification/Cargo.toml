[package]
name = "kiomq"
version = "0.1.0"
edition = "2021"
publish = false

[dependencies]
arc-swap = "*"
async-backtrace = "*"
async-trait = "*"
chrono = { version = "0.4", features = ["serde"] }
compact_str = { version = "*", features = ["serde"] }
croner = { version = "3", features = ["serde"] }
crossbeam = "*"
crossbeam-skiplist = "*"
deadpool-redis = "*"
dotenv = "*"
futures = "0.3"
hdrhistogram = "7"
heapster = "*"
hostname = "*"
num_cpus = "1"
num-traits = "0.2"
parking_lot = "0.12"
procfs = "*"
redis = { version = "*", features = ["tokio-comp", "aio", "streams"] }
rocksdb = "*"
serde = { version = "1", features = ["derive"] }
simd-json = "*"
tempfile = "3"
thiserror = "2"
tokio = { version = "1", features = ["full"] }
tokio-metrics = "*"
tokio-stream = { version = "0.1", features = ["sync"] }
tokio-util = { version = "0.7", features = ["rt", "time"] }
typed-emitter = "*"
uuid = { version = "1", features = ["v4", "serde"] }
