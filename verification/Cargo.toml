[package]
name = "rust_td"
version = "0.1.0"
edition = "2021"
publish = false

[dependencies]
ring = "0.17"
log = "0.4"
linked_list_allocator = "0.10"
