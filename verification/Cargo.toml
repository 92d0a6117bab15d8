[package]
name = "flair_style"
version = "0.1.0"
edition = "2021"
publish = false

[dependencies]
itertools = "=0.15.0"
cssparser = "=0.38.0"
bevy_ecs = "=0.20.1"
bevy_reflect = "=0.20.1"
bevy_ui = { version = "=0.20.1", default-features = false }
bevy_text = { version = "=0.20.1", default-features = false }
tracing = { version = "=0.1.44", default-features = false, features = ["std"] }
