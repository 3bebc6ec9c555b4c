[package]
name = "vape"
version = "0.1.0"
edition = "2021"
publish = false

[dependencies]
bytemuck = "1"
cortex-m = "*"
cortex-m-rt = "*"
embedded-graphics = "*"
embedded-hal = "1"
embedded-layout = "*"
embedded-storage = "*"
embedded-storage-async = "*"
heapless = "*"
nrf52840-hal = "*"
postcard = { version = "1", features = ["experimental-derive"] }
sequential-storage = "*"
serde = { version = "1", default-features = false, features = ["derive"] }
ssd1306 = "*"
strum = { version = "*", features = ["derive"] }
