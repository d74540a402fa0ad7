[package]
name = "tao_softbuffer_bar"
version = "0.1.0"
edition = "2021"
publish = false

[dependencies]
anyhow = "1"
bytemuck = "1"
cairo-rs = "*"
libc = "0.2"
log = "0.4"
pango = "*"
softbuffer = "*"
tao = "*"
