[package]
name = "xilem_bar"
version = "0.1.0"
edition = "2021"
publish = false

[dependencies]
chrono = { version = "0.4", default-features = false, features = ["clock", "std"] }
log = "0.4"
masonry = { version = "0.4", default-features = false }
tokio = { version = "1", default-features = false, features = ["time"] }
winit = { version = "0.30", default-features = false, features = ["rwh_06", "x11"] }
