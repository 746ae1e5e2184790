[package]
name = "event_actors"
version = "0.1.0"
edition = "2021"
publish = false

[dependencies]
anyhow = "1"
ractor = "*"
thiserror = "*"
tokio = { version = "1", features = ["macros", "rt", "rt-multi-thread", "sync", "time"] }
tracing = "0.1"
tracing-glog = "*"
tracing-subscriber = { version = "0.3", features = ["env-filter"] }
