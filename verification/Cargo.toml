[package]
name = "blync_light"
version = "0.1.0"
edition = "2021"
publish = false

[dependencies]
clap = { version = "*", features = ["derive"] }
color-eyre = "*"
deku = "*"
eyre = "*"
hexlit = "*"
hidapi = "*"
palette = { version = "*", features = ["named_from_str"] }
tracing = "*"
tracing-subscriber = "*"
