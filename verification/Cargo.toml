[package]
name = "hit_circles"
version = "0.1.0"
edition = "2021"
publish = false

[dependencies]
rodio = { version = "0.17", default-features = false, features = ["mp3"] }
rosu-map = "*"
