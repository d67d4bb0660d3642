[package]
name = "stm32c0xx_hal"
version = "0.1.0"
edition = "2021"
publish = false

[dependencies]
stm32c0 = { version = "*", features = ["stm32c011"] }
embedded-hal = { version = "0.2", features = ["unproven"] }
nb = "1"
