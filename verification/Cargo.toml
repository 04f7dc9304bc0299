[package]
name = "trackermeta"
version = "0.1.0"
edition = "2021"
publish = false

[dependencies]
tl = "0.7"
escaper = "0.1"
chrono = "0.4"
ureq = "2"
