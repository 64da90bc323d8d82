[package]
name = "bayer2rgb"
version = "0.1.0"
edition = "2021"
publish = false

[dependencies]
gstreamer = "0.23"
gstreamer-base = "0.23"
gstreamer-video = "0.23"
gstreamer-sys = "0.23"
gstreamer-base-sys = "0.23"
opencv = "=0.101.1"
