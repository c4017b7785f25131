[package]
name = "odisc"
version = "0.1.0"
edition = "2021"
publish = false

[dependencies]
rosc = "*"
smallvec = "1"
tokio = { version = "1", features = ["net", "signal", "rt", "macros"] }
midir = "*"
csv = "1"
serde = { version = "1", features = ["derive"] }
serde_json = "1"
dirs = "*"
once_cell = "1"
lazy_static = "1"

[dev-dependencies]
regex = "1"
