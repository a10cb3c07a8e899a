[package]
name = "rust_axum_newrelic_example"
version = "0.1.0"
edition = "2021"
publish = false

[dependencies]
anyhow = "1"
axum = "0.7"
opentelemetry = "=0.27.1"
opentelemetry_sdk = { version = "=0.27.1", features = ["rt-tokio"] }
opentelemetry-otlp = { version = "=0.27.0", default-features = false, features = ["trace", "metrics", "logs", "http-json", "reqwest-client"] }
opentelemetry-appender-tracing = "=0.27.0"
opentelemetry-semantic-conventions = { version = "=0.27.0", features = ["semconv_experimental"] }
tokio = { version = "1", features = ["rt-multi-thread", "macros", "net"] }
tower = { version = "0.5", features = ["util"] }
tower-http = { version = "0.6", features = ["trace"] }
tracing = "0.1"
tracing-opentelemetry = "=0.28.0"
tracing-subscriber = { version = "=0.3.23", features = ["env-filter"] }
