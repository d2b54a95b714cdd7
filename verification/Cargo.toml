[package]
name = "nk2view"
version = "0.1.0"
edition = "2021"
publish = false

[dependencies]
midi-control = { version = "=0.2.3", default-features = false }
midir = "=0.10.4"
num_enum = "=0.7.6"
thiserror = "=2.0.21"
iced = { version = "=0.14.0", default-features = false, features = ["canvas", "image", "smol", "tiny-skia", "x11"] }
smol = "=2.0.2"
tracing = "=0.1.44"
tracing-subscriber = "=0.3.23"
