[package]
name = "store_worker"
version = "0.1.0"
edition = "2021"
publish = false

[dependencies]
momento = "=0.49.0"
rand = "=0.8.8"
rand_distr = "=0.4.3"
tokio = { version = "=1.54.1", features = ["rt-multi-thread", "sync", "time"] }
