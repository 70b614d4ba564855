[package]
name = "camera_math"
version = "0.1.0"
edition = "2021"
publish = false
