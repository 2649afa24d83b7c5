[package]
name = "rtsp_router"
version = "0.1.0"
edition = "2021"
publish = false

[dependencies]
gstreamer = "*"
gstreamer-app = "*"
gstreamer-rtsp = "*"
gstreamer-rtsp-server = "*"
