[package]
name = "kube_cache"
version = "0.1.0"
edition = "2021"
publish = false

[dependencies]
anyhow = "=1.0.104"
aws-config = "=1.11.0"
aws-sdk-s3 = "=1.152.0"
aws-types = "~1.6"
axum = "=0.7.9"
aya = { version = "=0.13.1", features = ["async_tokio"] }
aya-ebpf = "=0.1.1"
aya-log = "=0.2.1"
aya-log-ebpf = "=0.1.0"
bytes = "=1.12.1"
clap = { version = "=4.6.7", features = ["derive"] }
env_logger = "=0.11.11"
futures = "=0.3.34"
k8s-openapi = { version = "=0.22.0", features = ["v1_30"] }
kube = "=0.93.1"
libc = "=0.2.191"
log = "=0.4.34"
opentelemetry = "=0.22.0"
opentelemetry-otlp = "=0.15.0"
opentelemetry_sdk = { version = "=0.22.1", features = ["rt-tokio"] }
prometheus = "=0.13.4"
rustls = { version = "=0.23.46", features = ["ring"] }
serde_json = "=1.0.154"
tiny_http = "=0.12.0"
tokio = { version = "=1.54.1", features = ["full"] }
tracing = "=0.1.44"
tracing-opentelemetry = "=0.23.0"
tracing-subscriber = { version = "=0.3.23", features = ["json", "env-filter"] }
