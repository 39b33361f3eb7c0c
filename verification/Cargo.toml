[package]
name = "rtp_fec_audio"
version = "0.1.0"
edition = "2021"
publish = false

[dependencies]
gstreamer = "0.12"
glib = "0.6"
failure = "0.1"
failure_derive = "0.1"
