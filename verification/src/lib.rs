//! Verified core of a hardware-abstraction layer for STM32F103xx
//! microcontrollers.
//!
//! Every function here works on plain values: register words that the caller
//! has read, and register words that the caller is to write. Nothing in this
//! crate touches a memory-mapped register itself, so each decision the drivers
//! make is a function of its arguments and carries a proved contract.

mod barrier;
pub mod bits;
pub mod capture;
pub mod checked;
pub mod dma;
pub mod gpio;
pub mod i2c;
pub mod iwdg;
pub mod nonblocking;
pub mod pwm;
pub mod pwm2;
pub mod qei;
pub mod rtc;
pub mod serial;
pub mod spi;
pub mod time;
pub mod timer;
