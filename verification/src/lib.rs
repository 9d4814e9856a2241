//! Verified core of a hardware abstraction layer for CH32V3 microcontrollers.
//!
//! The crate holds the register arithmetic of the GPIO pins, of the
//! peripheral clock and reset control, and of the SysTick delay provider.
//! Every operation is stated over a plain-value model of the register block
//! it touches, so that its effect on each bit is part of its contract. What
//! an operation asks of the bus is also available as a value of its own, for
//! a driver that carries it out on the device.
#![allow(non_camel_case_types, non_snake_case)]

pub mod bits;
pub mod delay;
pub mod gpio;
pub mod rcc;
mod sealed;

pub(crate) use sealed::Sealed;
pub mod time;
