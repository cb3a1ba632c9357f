[package]
name = "kernel_boot"
version = "0.1.0"
edition = "2021"
publish = false

[dependencies]
cortex-a = { version = "=7.5.0", default-features = false }
qemu-exit = "=4.0.0"
