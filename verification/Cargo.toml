[package]
name = "xpalm"
version = "0.1.0"
edition = "2021"
publish = false

[dependencies]
clap = { version = "4", features = ["derive"] }
colored = "*"
evdev = { version = "0.13", features = ["tokio"] }
rand = "0.9"
strum = { version = "0.27", features = ["derive"] }
tokio = { version = "1", features = ["full"] }
whoami = "*"
