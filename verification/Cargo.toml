[package]
name = "game_flow"
version = "0.1.0"
edition = "2021"
publish = false

[dependencies]
image = { version = "0.24", default-features = false, features = ["png"] }
imageproc = { version = "0.23", default-features = false }
rusttype = "0.9"
web-sys = { version = "0.3", features = ["Window", "CustomEvent", "CustomEventInit", "EventTarget", "Event"] }
