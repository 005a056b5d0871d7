[package]
name = "corvid_runtime"
version = "0.1.0"
edition = "2021"
publish = false

[dependencies]
sha2 = "0.10"
argon2 = "0.5"
rand_core = { version = "0.6", features = ["getrandom"] }
serde = { version = "1", features = ["derive"] }
serde_json = "1"
slotmap = "1"
dotenvy = "0.15"
futures = "0.3"
tokio = { version = "1", features = ["rt-multi-thread", "fs", "macros", "sync"] }
reqwest = { version = "0.12", default-features = false, features = ["blocking", "json"] }
rusqlite = { version = "0.31", features = ["bundled"] }
