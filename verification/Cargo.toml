[package]
name = "gtranslate"
version = "0.1.0"
edition = "2021"
publish = false

[dependencies]
gdk = "*"
gtk = "*"
hyper = "0.10"
