[package]
name = "video_live_delay"
version = "0.1.0"
edition = "2021"
publish = false

[dependencies]
gtk = "0.18"
gstreamer = "0.21"
gstreamer-video = "0.21"
gstreamer-app = "0.21"
