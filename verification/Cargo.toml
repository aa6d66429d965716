[package]
name = "liltcp"
version = "0.1.0"
edition = "2021"
publish = false

[dependencies]
smoltcp = "0.11"
lilos = "*"
embassy-futures = "*"
cortex-m = { version = "0.7", features = ["critical-section-single-core"] }
cortex-m-rt = "0.7"
cortex-m-semihosting = "*"
stm32h7xx-hal = { version = "0.16", features = ["stm32h743v", "ethernet"] }
defmt = "*"
defmt-rtt = "*"
panic-probe = "*"
grounded = "*"
