[package]
name = "blurlock"
version = "0.1.0"
edition = "2021"
publish = false

[dependencies]
clap = { version = "=4.6.7", features = ["derive"] }
fast_image_resize = "=6.1.0"
image = "=0.25.10"
x11 = { version = "=2.21.0", features = ["xlib"] }
