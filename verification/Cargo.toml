[package]
name = "kcard"
version = "0.1.0"
edition = "2021"
publish = false

[dependencies]
ab_glyph = "0.2"
alloy-primitives = "0.8"
chrono = { version = "0.4", default-features = false, features = ["clock", "std"] }
image = { version = "0.25", default-features = false, features = ["jpeg", "png"] }
imageproc = { version = "0.25", default-features = false }
rmp-serde = "1"
serde = { version = "1", features = ["derive"] }
serde_json = "1"
