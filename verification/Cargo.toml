[package]
name = "smart_house"
version = "0.1.0"
edition = "2021"
publish = false

[dependencies]
byteorder = "1"
tokio = { version = "1", features = ["rt-multi-thread", "macros", "net", "io-util", "time", "sync"] }
tokio-util = "0.7"
rand = "0.8"
rand_distr = "0.4"
serde_json = "1"
