[package]
name = "backup_stream"
version = "0.1.0"
edition = "2021"
publish = false

[dependencies]
crossbeam = "=0.8.5"
etcd-client = "0.7"
raft = "=0.7.0"
tokio = { version = "=1.54.1", features = ["rt-multi-thread", "time", "net", "sync"] }
tokio-stream = "=0.1.19"
