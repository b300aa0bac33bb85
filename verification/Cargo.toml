[package]
name = "thread_memory"
version = "0.1.0"
edition = "2021"
publish = false

[dependencies]
bytesize = "*"
memory-stats = "*"
