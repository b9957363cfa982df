[package]
name = "endnaut"
version = "0.1.0"
edition = "2021"
publish = false

[dependencies]
asdf-pixel-sort = "*"
eframe = "0.15"
env_logger = "0.9"
flume = "0.10"
glium = "0.30"
glutin = "0.27"
image = "0.23"
log = "0.4"
nokhwa = { version = "0.9", default-features = false }
