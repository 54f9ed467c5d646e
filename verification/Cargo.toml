[package]
name = "openbook"
version = "0.1.0"
edition = "2021"
publish = false

[dependencies]
notify = "=4.0.18"

[dev-dependencies]
rayon = "*"
tempfile = "=3.27.0"
