//! API for system configuration (SYSCON)
//!
//! Only the part of the system configuration block the rest of this crate
//! needs: the register that gates the bus clock of each peripheral. A
//! peripheral's gate bit must be set before its registers can be written.

use vstd::prelude::*;

verus! {

/// The clock gate bit of the switch matrix
pub const SWM_CLOCK: u32 = 0x80;

/// Main API of the SYSCON peripheral
///
/// This API expects to be the sole owner of the peripheral's clock-gate
/// register, which it models directly.
pub struct Api {
    sysahbclkctrl: u32,
}

impl Api {
    /// The modelled value of the clock-gate register
    pub closed spec fn spec_clocks(&self) -> u32 {
        self.sysahbclkctrl
    }

    /// Whether every gate bit of `mask` is set
    pub open spec fn spec_clock_enabled(&self, mask: u32) -> bool {
        self.spec_clocks() & mask == mask
    }

    /// Creates the SYSCON API with every gated clock off
    pub fn new() -> (api: Api)
        ensures
            api.spec_clocks() == 0u32,
    {
        Api { sysahbclkctrl: 0 }
    }

    /// Returns whether every gate bit of `mask` is set
    pub fn clock_enabled(&self, mask: u32) -> (r: bool)
        ensures
            r == self.spec_clock_enabled(mask),
    {
        self.sysahbclkctrl & mask == mask
    }

    /// Opens the clock gates named by `mask`, leaving all others as they are
    pub fn enable_clock(&mut self, mask: u32)
        ensures
            final(self).spec_clocks() == old(self).spec_clocks() | mask,
            final(self).spec_clock_enabled(mask),
    {
        self.sysahbclkctrl = self.sysahbclkctrl | mask;
        proof {
            assert(forall|c: u32, m: u32| (c | m) & m == m) by (bit_vector);
        }
    }
}

} // verus!
