//! Hardware abstraction layer for the power-management and pin-routing
//! peripherals of an LPC82x-class microcontroller.
//!
//! The heart of the crate is the sleep subsystem: the [`sleep::Sleep`]
//! capability with its busy-waiting and interrupt-driven strategies, and the
//! clock-tagged tick type that makes sleep durations unit-safe at compile
//! time.

pub mod clock;
pub mod gpio;
pub mod init_state;
pub mod mock;
pub mod nvic;
pub mod pmu;
pub mod scb;
pub mod sleep;
pub mod swm;
pub mod syscon;
pub mod wkt;
