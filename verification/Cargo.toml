[package]
name = "mlog_pico"
version = "0.1.0"
edition = "2021"
publish = false

[dependencies]
heapless = "*"
widestring = "*"
embedded-graphics = "*"
mipidsi = "*"
embedded-hal = "*"
embedded-io = "*"
embedded-io-async = "*"
embedded-alloc = "*"
panic-persist = "*"
cortex-m = "*"
embassy-rp = "*"
embassy-executor = "*"
embassy-futures = "*"
embassy-sync = "*"
embassy-time = "*"
embassy-usb = "*"
embassy-embedded-hal = "*"
