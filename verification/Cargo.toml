[package]
name = "page_dispatch"
version = "0.1.0"
edition = "2021"
publish = false

[dependencies]
async-trait = "*"
lambda_http = "*"
lambda_runtime = "*"
lazy_static = "*"
log = "*"
tokio = { version = "1", features = ["macros", "rt-multi-thread"] }
tracing = "*"
tracing-subscriber = "*"
