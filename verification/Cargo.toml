[package]
name = "metal"
version = "0.1.0"
edition = "2021"
publish = false

[dependencies]
cocoa = "*"
foreign-types = "0.3"
libc = "0.2"
objc = "0.2"
objc-foundation = "0.1"
