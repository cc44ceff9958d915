[package]
name = "corpus_sampler"
version = "0.1.0"
edition = "2021"
publish = false

[dependencies]
arrow = { version = "=60.0.0", default-features = false }
clap = { version = "=4.6.7", features = ["derive"] }
datafusion = { version = "=55.2.0", default-features = false, features = ["nested_expressions", "parquet"] }
flate2 = "=1.1.10"
futures = "=0.3.34"
isolang = "=2.4.0"
oscar-io = "=0.4.0"
parquet = { version = "=60.0.0", default-features = false, features = ["arrow", "zstd"] }
rand = "=0.8.8"
serde = { version = "=1.0.229", features = ["derive"] }
serde_json = "=1.0.154"
tokio = { version = "=1.54.1", features = ["rt-multi-thread", "macros"] }
url = "=2.5.8"
walkdir = "=2.5.0"
yaml-rust2 = "=0.13.0"
