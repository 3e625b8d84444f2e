//! Handle for the nested vectored interrupt controller (NVIC)
//!
//! The sleep subsystem never inspects the interrupt controller; it only hands
//! the handle to the wake-up timer when arming the timer's interrupt path.
//! The handle is a zero-sized single-owner token standing for the right to do
//! so.

use vstd::prelude::*;

verus! {

/// The interrupt controller handle
pub struct Nvic;

impl Nvic {
    /// Creates the interrupt controller handle
    pub fn new() -> Nvic {
        Nvic
    }
}

} // verus!
