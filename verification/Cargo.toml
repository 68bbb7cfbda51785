[package]
name = "ndisrc"
version = "0.1.0"
edition = "2021"
publish = false

[dependencies]
gstreamer = "0.23"
gstreamer-base = "0.23"
glib = "0.20"
once_cell = "1.21"
