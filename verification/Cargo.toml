[package]
name = "copypasta_ext"
version = "0.1.0"
edition = "2021"
publish = false

[dependencies]
base64 = "0.13"
which = "4"
libc = "0.2"
copypasta = { version = "0.8", default-features = false, features = ["x11"] }
x11-clipboard = "0.7"
