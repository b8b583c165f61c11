[package]
name = "quickwit_core"
version = "0.1.0"
edition = "2021"
publish = false

[dependencies]
anyhow = "1"
async-trait = "0.1"
once_cell = "1"
serde = "1"
tokio = { version = "1", default-features = false, features = ["macros", "net", "rt", "sync", "time"] }
tracing = "0.1"

[dev-dependencies]
serde_json = "1"
