[package]
name = "qr_service"
version = "0.1.0"
edition = "2021"
publish = false

[dependencies]
fast_qr = { version = "*", features = ["image", "svg"] }
bytes = "1"
http-body-util = "0.1"
hyper = { version = "1", features = ["http1", "server"] }
hyper-util = { version = "0.1", features = ["tokio"] }
tokio = { version = "1", features = ["macros", "net", "rt-multi-thread"] }
