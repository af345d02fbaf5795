[package]
name = "gloam_commands"
version = "0.1.0"
edition = "2021"
publish = false

[dependencies]
regex = "1"
tokio = { version = "1", features = ["rt-multi-thread", "macros", "sync", "time"] }
serde_json = "1"
thiserror = "2"
tracing = "0.1"
syn = { version = "2", features = ["full"] }
quote = "1"
proc-macro2 = "1"
