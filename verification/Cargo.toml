[package]
name = "sni_terminator"
version = "0.1.0"
edition = "2021"
publish = false

[dependencies]
rustls = "0.23"
rustls-pemfile = "2"
once_cell = "1"
tokio = { version = "1", features = ["full"] }
tokio-rustls = "0.26"
axum = "0.8"
futures-util = "0.3"
hyper = { version = "1", features = ["full"] }
hyper-util = { version = "0.1", features = ["full"] }
tower = { version = "0.5", features = ["util"] }
tower-http = { version = "0.6", features = ["fs", "compression-gzip", "decompression-gzip"] }
tracing = "0.1"
tracing-subscriber = { version = "0.3", features = ["env-filter"] }
