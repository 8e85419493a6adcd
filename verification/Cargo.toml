[package]
name = "quark_core"
version = "0.1.0"
edition = "2021"
publish = false

[dependencies]
libc = "*"
errno = "*"
kvm-bindings = "*"
kvm-ioctls = "*"
lazy_static = "*"
