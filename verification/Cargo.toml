[package]
name = "kernel_core"
version = "0.1.0"
edition = "2021"
publish = false

[dependencies]
lazy_static = "1"
spin = "*"
volatile = "0.2"
linked_list_allocator = "*"
