[package]
name = "release_from_changelog"
version = "0.1.0"
edition = "2021"
publish = false

[dependencies]
anyhow = "1"
devlog-tracing = "*"
regex = "1"
reqwest = { version = "0.12", features = ["blocking", "json"] }
serde = { version = "1", features = ["derive"] }
tracing = "0.1"
