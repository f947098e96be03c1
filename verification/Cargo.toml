[package]
name = "sunbeam_kanban"
version = "0.1.0"
edition = "2021"
publish = false

[dependencies]
async-stream = "=0.3.6"
buffa = "=0.9.2"
buffa-types = "=0.9.2"
chrono = { version = "=0.4.45", default-features = false, features = ["std", "clock"] }
connectrpc = "=0.9.1"
prost-types = "=0.14.4"
reqwest = { version = "=0.13.5", default-features = false, features = ["json"] }
serde_json = "=1.0.154"
sqlx = { version = "=0.8.6", default-features = false, features = ["postgres", "runtime-tokio", "chrono", "json"] }
tokio = { version = "=1.54.1", features = ["sync", "time", "rt", "macros"] }
tokio-stream = "=0.1.19"
tonic = { version = "=0.14.9", default-features = false, features = ["codegen"] }
tracing = "=0.1.44"
