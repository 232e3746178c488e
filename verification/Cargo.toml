[package]
name = "tyto"
version = "0.1.0"
edition = "2021"
publish = false

[dependencies]
arrayvec = "=0.7.8"
crossbeam-queue = "=0.3.14"
embedded-graphics-core = "=0.4.1"
futures-util = { version = "=0.3.34", default-features = false }
log = "=0.4.34"
noto-sans-mono-bitmap = { version = "=0.1.6", default-features = false, features = ["regular", "size_20"] }
pic8259 = "=0.11.0"
spin = "=0.9.9"
uart_16550 = "=0.9.0"
uefi = "=0.41.0"
x86_64 = { version = "=0.15.5", default-features = false, features = ["instructions"] }
