[package]
name = "visual_servo"
version = "0.1.0"
edition = "2021"
publish = false

[dependencies]
eyre = "*"
hs-hackathon = "*"
tokio = { version = "*", features = ["macros", "rt-multi-thread"] }
tracing = "*"
