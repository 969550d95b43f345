[package]
name = "dextreamer"
version = "0.1.0"
edition = "2021"

[dependencies]
gstreamer = "0.20"
gstreamer-app = "0.20"
gstreamer-video = "0.20"
