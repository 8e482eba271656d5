[package]
name = "stm32wl_hal"
version = "0.1.0"
edition = "2021"
publish = false

[dependencies]
embedded-hal = "0.2"
futures = "=0.3.34"
