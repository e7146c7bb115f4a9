[package]
name = "eguikit"
version = "0.1.0"
edition = "2021"
publish = false

[dependencies]
egui = "=0.37.0"
eframe = { version = "=0.37.0", default-features = false, features = ["glow", "default_fonts", "x11"] }
keyframe = { version = "=1.1.1", default-features = false, features = ["alloc"] }
