[package]
name = "sitro"
version = "0.1.0"
edition = "2021"
publish = false

[dependencies]
uuid = { version = "*", features = ["v4"] }
hayro = "*"
image = "*"
imagesize = "*"
pdfium-render = "*"
tempdir = "*"
tiny-skia = "*"
walkdir = "*"
