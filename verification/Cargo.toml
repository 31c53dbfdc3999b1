[package]
name = "tutti-au-host"
version = "0.1.0"
edition = "2021"
publish = false

[dependencies]
block2 = "=0.6.2"
core-foundation = "=0.10.1"
core-foundation-sys = "=0.8.7"
objc2 = { version = "=0.6.5", features = ["relax-void-encoding"] }
objc2-foundation = "=0.3.2"
thiserror = "=2.0.21"
