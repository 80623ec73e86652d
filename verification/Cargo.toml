[package]
name = "stm32f103xx-hal"
version = "0.1.0"
edition = "2021"
publish = false

[dependencies]
cast = { version = "=0.2.7", default-features = false }
cortex-m = "=0.5.11"
embedded-hal = { version = "=0.2.7", features = ["unproven"] }
nb = "=0.1.3"
stm32f103xx = "=0.11.0"
void = { version = "=1.0.2", default-features = false }
