[package]
name = "sandra_core"
version = "0.1.0"
edition = "2021"
publish = false

[dependencies]
chrono = "*"
clap = { version = "*", features = ["derive"] }
csv = "*"
md-5 = "*"
prost = "*"
prost-types = "*"
rhai = "*"
serde = { version = "*", features = ["derive"] }
serde_json = "*"
tokio = { version = "*", features = ["rt-multi-thread", "macros"] }
tonic = "*"
walkdir = "*"
zip = "*"
