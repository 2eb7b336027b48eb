[package]
name = "tgui_player"
version = "0.1.0"
edition = "2021"
publish = false

[dependencies]
gstreamer = "0.23"
gstreamer-app = "0.23"
gstreamer-video = "0.23"
url = "=2.5.8"
