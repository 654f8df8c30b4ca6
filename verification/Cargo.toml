[package]
name = "lab_allocator"
version = "0.1.0"
edition = "2021"
publish = false

[dependencies]
axlog = "=0.3.0-preview.3"
