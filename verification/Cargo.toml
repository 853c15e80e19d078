[package]
name = "lwip"
version = "0.1.0"
edition = "2021"
publish = false

[dependencies]
byteorder = "1"
bytes = "0.5"
futures = "0.3"
ipnetwork = "*"
pin-project-lite = "0.1"
tokio = { version = "0.2", features = ["sync", "io-util", "dns", "tcp", "stream", "rt-core", "blocking"] }
