[package]
name = "cosmic-internet-radio-applet"
version = "0.1.0"
edition = "2021"
publish = false

[dependencies]
dirs = "=7.0.0"
futures-util = "=0.3.34"
gstreamer = "0.23"
serde = { version = "=1.0.229", features = ["derive"] }
thiserror = "=2.0.21"
toml = "=1.1.8"
tracing = "=0.1.44"
