[package]
name = "factoriod"
version = "0.1.0"
edition = "2021"
publish = false

[dependencies]
clap = { version = "4", features = ["derive"] }
nutype = { version = "*", features = ["serde"] }
reqwest = { version = "0.12", features = ["blocking", "json"] }
semver = { version = "1", features = ["serde"] }
serde = { version = "1", features = ["derive"] }
strum = { version = "*", features = ["derive"] }
systemd-directories = "*"
tar = "0.4"
tracing = "0.1"
tracing-subscriber = { version = "0.3", features = ["env-filter"] }
xz2 = "0.1"
