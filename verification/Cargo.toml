[package]
name = "hivemind"
version = "0.1.0"
edition = "2021"
publish = false

[dependencies]
bit_field = "=0.10.3"
lazy_static = "=1.5.1"
multiboot2 = "=0.28.0"
raw-cpuid = { version = "=11.6.0", default-features = false }
spin = "=0.12.3"
volatile = "=0.6.1"
x86_64 = { version = "=0.15.5", default-features = false, features = ["instructions"] }
