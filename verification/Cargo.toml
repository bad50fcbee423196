[package]
name = "gadgets"
version = "0.1.0"
edition = "2021"
publish = false

[dependencies]
anyhow = "1"
clap = { version = "4", features = ["derive"] }
lazy_static = "1"
rdev = "0.5"
regex = "1"
thiserror = "1"
tracing = "0.1"
tracing-subscriber = "0.3"
which = "*"
x11rb = "0.13"
