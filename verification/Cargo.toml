[package]
name = "femtophotos"
version = "0.1.0"
edition = "2021"
publish = false

[dependencies]
image = { version = "=0.25.10", default-features = false, features = ["bmp", "gif", "ico", "jpeg", "png", "pnm", "qoi", "tga", "tiff", "webp"] }
qoi = "=0.4.1"
spng = "=0.1.0"
zune-jpeg = "=0.5.15"
kamadak-exif = "=0.6.1"
png = "=0.18.1"
