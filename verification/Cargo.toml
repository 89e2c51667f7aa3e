[package]
name = "logo_embedder"
version = "0.1.0"
edition = "2021"
publish = false

[dependencies]
futures = "0.3"
gio = "0.9"
glib = "0.10"
gstreamer = "0.16"
gtk = "0.9"
image = { version = "0.23", default-features = false, features = ["png", "jpeg"] }
rand = "0.7"
