[package]
name = "theaterd"
version = "0.1.0"
edition = "2021"
publish = false

[dependencies]
cec_linux = { version = "=0.2.2", features = ["poll"] }
sispm = "=1.0.0"
ctrlc = "=3.5.2"
