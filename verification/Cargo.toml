[package]
name = "blocks_sdk"
version = "0.1.0"
edition = "2021"
publish = false

[dependencies]
serde = { version = "1", features = ["derive"] }
serde_json = "1"
serde_yml = "*"
thiserror = "2"
syn = { version = "2", features = ["full"] }
proc-macro2 = "1"
tokio = { version = "1", features = ["net", "sync", "rt", "macros"] }
