[package]
name = "uring_io"
version = "0.1.0"
edition = "2021"
publish = false

[dependencies]
libc = "*"
socket2 = "*"
iou = "*"
uring-sys = "*"
