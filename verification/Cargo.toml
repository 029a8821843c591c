[package]
name = "stack_and_socket"
version = "0.1.0"
edition = "2021"
publish = false

[dependencies]
embedded-nal = "=0.6.0"
ufmt = "=0.2.0"
