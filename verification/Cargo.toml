[package]
name = "rencfs_desktop"
version = "0.1.0"
edition = "2021"
publish = false

[dependencies]
sysinfo = "=0.30.13"
tokio = { version = "=1.54.1", features = ["macros", "process", "rt-multi-thread", "sync", "time"] }
tonic = "=0.11.0"
prost = "=0.12.6"
diesel = { version = "=2.3.14", features = ["sqlite"] }
diesel_migrations = "2"
tracing = "=0.1.44"
tracing-appender = "=0.2.5"
tracing-subscriber = "=0.3.23"
dotenvy = "=0.15.7"
directories = "=5.0.1"

[dev-dependencies]
serde_json = "=1.0.154"
