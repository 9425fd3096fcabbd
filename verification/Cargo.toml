[package]
name = "code_projector"
version = "0.1.0"
edition = "2021"
publish = false

[dependencies]
syntect = { version = "5", default-features = false, features = ["default-fancy"] }
egui = { version = "0.32", default-features = false }
