[package]
name = "bsp_raspi3b1_2"
version = "0.1.0"
edition = "2021"
publish = false

[dependencies]
aarch64-cpu = "*"
tock-registers = "*"
linked_list_allocator = "*"
clap = { version = "*", features = ["derive"] }
serialport = "*"
