[package]
name = "player"
version = "0.1.0"
edition = "2021"
publish = false

[dependencies]
futures = "0.3"
glib = "=0.21.5"
gstreamer = "=0.24.5"
gstreamer-play = { version = "=0.24.5", features = ["v1_26"] }
# A dependency of gstreamer, held at a version that builds with the compiler that Verus runs on.
kstring = "=2.0.2"
log = "0.4"
tokio = { version = "1", features = ["rt-multi-thread", "macros", "sync", "time"] }
tokio-util = "0.7"
