[package]
name = "kernel_writer"
version = "0.1.0"
edition = "2021"
publish = false

[dependencies]
bootloader_api = "=0.11.17"
noto-sans-mono-bitmap = { version = "=0.2.0", default-features = false, features = ["regular", "size_16", "unicode-basic-latin", "unicode-specials"] }
pc-keyboard = "=0.5.1"
pic8259 = "=0.11.0"
spin = "=0.9.9"
x86_64 = { version = "=0.15.5", default-features = false, features = ["instructions"] }
lazy_static = { version = "=1.5.1", features = ["spin_no_std"] }
