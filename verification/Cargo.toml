[package]
name = "blackgpib"
version = "0.1.0"
edition = "2021"
publish = false

[dependencies]
memmap2 = "0.9"
libc = "0.2"
bpaf = "0.9"
rppal = "*"
thiserror = "2"
