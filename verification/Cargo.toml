[package]
name = "penrose"
version = "0.1.0"
edition = "2021"
publish = false

[dependencies]
xcb = { version = "0.9", features = ["randr"] }
