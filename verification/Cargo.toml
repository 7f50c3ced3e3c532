[package]
name = "smol_clip"
version = "0.1.0"
edition = "2021"
publish = false

[dependencies]
arboard = { version = "=2.1.1", default-features = false, features = ["image-data"] }
image = { version = "=0.23.14", default-features = false, features = ["png"] }
log = "=0.4.35"
once_cell = "=1.21.4"
parking_lot = "=0.11.2"
x11rb = "=0.9.0"
