[package]
name = "image_gallery"
version = "0.1.0"
edition = "2021"
publish = false

[dependencies]
makepad-widgets = "*"
