[package]
name = "compaction_manager"
version = "0.1.0"
edition = "2021"
publish = false

[dependencies]
async-trait = "0.1"
futures = "0.3"
thiserror = "1"
tracing = "0.1"
uuid = "1"
