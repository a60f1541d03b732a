[package]
name = "pcp_portmap"
version = "0.1.0"
edition = "2021"
publish = false

[dependencies]
anyhow = "1"
derivative = "2"
k8s-openapi = { version = "0.22", features = ["latest"] }
kube = { version = "0.93", default-features = false, features = ["client", "runtime"] }
num_enum = "0.7"
prometheus = { version = "0.13", default-features = false }
thiserror = "1"
tokio = { version = "1", features = ["net", "time", "sync", "rt"] }
tracing = "0.1"
