[package]
name = "my_os"
version = "0.1.0"
edition = "2021"
publish = false

[dependencies]
crossbeam-queue = "=0.3.14"
spin = "=0.12.3"
lazy_static = "=1.5.1"
uart_16550 = "=0.2.19"
x86_64 = { version = "=0.14.13", default-features = false, features = ["instructions"] }
