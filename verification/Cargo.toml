[package]
name = "otlp_logger"
version = "0.6.0"
edition = "2021"
publish = false

[dependencies]
opentelemetry = "0.28"
opentelemetry_sdk = { version = "0.28", features = ["rt-tokio"] }
opentelemetry-otlp = { version = "0.28", default-features = false, features = ["grpc-tonic", "trace", "metrics", "logs"] }
opentelemetry-appender-tracing = "0.28"
opentelemetry-semantic-conventions = { version = "0.28", features = ["semconv_experimental"] }
tracing-opentelemetry = "0.29"
tracing-subscriber = { version = "0.3", features = ["env-filter"] }
tokio = { version = "1", features = ["rt", "rt-multi-thread", "time"] }

[dev-dependencies]
tracing = "0.1"
