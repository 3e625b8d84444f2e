//! Handle for the system control block (SCB)
//!
//! The sleep subsystem never inspects the system control block; it only hands
//! the handle to the power management unit when entering a low-power mode.
//! The handle is a zero-sized single-owner token standing for the right to do
//! so.

use vstd::prelude::*;

verus! {

/// The system control block handle
pub struct Scb;

impl Scb {
    /// Creates the system control block handle
    pub fn new() -> Scb {
        Scb
    }
}

} // verus!
