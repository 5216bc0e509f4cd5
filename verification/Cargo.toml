[package]
name = "stm32l4x6_hal"
version = "0.1.0"
edition = "2021"
publish = false

[dependencies]
stm32l4x6 = "*"
