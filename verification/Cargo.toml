[package]
name = "graphql_adapter"
version = "0.1.0"
edition = "2021"
publish = false

[dependencies]
async-graphql = { version = "*", features = ["dynamic-schema"] }
serde_json = "*"
futures-executor = "*"
lambda_http = "*"
http = "*"
tokio = { version = "*", features = ["macros", "rt-multi-thread"] }
tracing = "*"
tracing-subscriber = "*"
lazy_static = "*"
