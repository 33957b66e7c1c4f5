[package]
name = "axcpu"
version = "0.1.0"
edition = "2021"
publish = false

[dependencies]
aarch64-cpu = "=11.2.0"
tock-registers = "=0.10.1"
x86_64 = { version = "=0.15.5", default-features = false, features = ["instructions"] }
memory_addr = "=0.4.1"
log = "=0.4.34"
