[package]
name = "php_gateway"
version = "0.1.0"
edition = "2021"
publish = false

[dependencies]
async-trait = "0.1"
bb8 = "0.8"
clap = { version = "4", features = ["derive"] }
fastcgi-client = { version = "=0.12.0", features = ["tokio"] }
futures = "0.3"
http = "=1.5.0"
http-body-util = "0.1"
httparse = "=1.10.1"
hyper = { version = "1", features = ["http1", "server"] }
hyper-util = { version = "0.1", features = ["tokio"] }
thiserror = "1"
tokio = { version = "1", features = ["fs", "io-util", "macros", "net", "rt-multi-thread"] }
tokio-util = { version = "0.7", features = ["compat", "io"] }
tracing = "0.1"
tracing-subscriber = { version = "0.3", features = ["env-filter"] }
