//! APIs for the switch matrix (SWM)
//!
//! The switch matrix routes peripheral signal functions onto physical pins.
//! A movable function lives in one byte-wide slot of one pin-assign
//! register: writing a pin number into the slot routes the function to that
//! pin, and the reset value of every slot routes it nowhere. A fixed
//! function is tied to one pin and is switched by one bit of the enable
//! register: a cleared bit means the function drives its pin.
//!
//! Instead of one type per function, one slot table drives a single generic
//! assign routine, and the contracts pin down, byte for byte and bit for
//! bit, what each operation does to the register model and what it leaves
//! alone.

use vstd::prelude::*;

use crate::gpio::PinName;
use crate::init_state::{self, InitState};
use crate::syscon;

verus! {

/// The byte in slot `slot` of the pin-assign register value `reg`
pub open spec fn byte_of(reg: u32, slot: u32) -> u32 {
    if slot == 0 {
        reg & 0xff
    } else if slot == 1 {
        (reg >> 8u32) & 0xff
    } else if slot == 2 {
        (reg >> 16u32) & 0xff
    } else {
        (reg >> 24u32) & 0xff
    }
}

/// Main API of the SWM peripheral
///
/// This API expects to be the sole owner of the switch matrix's registers,
/// which it models directly: twelve pin-assign registers of four slots each,
/// and the fixed-function enable register. The type state says whether the
/// peripheral's bus clock has been enabled, which must happen before any
/// routing.
pub struct Api<State: InitState = init_state::Initialized> {
    pinassign: [u32; 12],
    pinenable0: u32,
    _state: State,
}

impl<State: InitState> Api<State> {
    /// The modelled value of pin-assign register `reg`
    pub closed spec fn spec_pinassign(&self, reg: int) -> u32 {
        self.pinassign[reg]
    }

    /// The modelled value of the fixed-function enable register
    pub closed spec fn spec_pinenable0(&self) -> u32 {
        self.pinenable0
    }

    /// The pin number routed in slot `slot` of pin-assign register `reg`
    pub open spec fn spec_assigned_pin(&self, reg: int, slot: u32) -> u32 {
        byte_of(self.spec_pinassign(reg), slot)
    }

    /// Whether the fixed function switched by `bit` drives its pin
    pub open spec fn spec_fixed_enabled(&self, bit: u32) -> bool {
        self.spec_pinenable0() & (1u32 << bit) == 0
    }

    /// Reads the modelled value of pin-assign register `reg`
    pub fn read_pinassign(&self, reg: usize) -> (v: u32)
        requires
            reg < 12,
        ensures
            v == self.spec_pinassign(reg as int),
    {
        self.pinassign[reg]
    }

    /// Reads the modelled value of the fixed-function enable register
    pub fn read_pinenable0(&self) -> (v: u32)
        ensures
            v == self.spec_pinenable0(),
    {
        self.pinenable0
    }
}

impl Api<init_state::Unknown> {
    /// Creates the SWM register model in its reset state: every movable
    /// function unassigned, every fixed function disabled
    pub(crate) fn new() -> (api: Api<init_state::Unknown>)
        ensures
            forall|reg: int| 0 <= reg < 12 ==> api.spec_pinassign(reg) == 0xffff_ffffu32,
            api.spec_pinenable0() == 0xffff_ffffu32,
    {
        let v: u32 = 0xffff_ffff;
        Api {
            pinassign: [v, v, v, v, v, v, v, v, v, v, v, v],
            pinenable0: v,
            _state: init_state::Unknown,
        }
    }

    /// Initialize the switch matrix
    ///
    /// Enables the peripheral's bus clock at the system configuration block;
    /// the registers themselves are left exactly as they were.
    pub fn init(self, syscon: &mut syscon::Api) -> (api: Api<init_state::Initialized>)
        ensures
            final(syscon).spec_clocks() == old(syscon).spec_clocks() | syscon::SWM_CLOCK,
            final(syscon).spec_clock_enabled(syscon::SWM_CLOCK),
            forall|reg: int| 0 <= reg < 12 ==> api.spec_pinassign(reg) == self.spec_pinassign(reg),
            api.spec_pinenable0() == self.spec_pinenable0(),
    {
        syscon.enable_clock(syscon::SWM_CLOCK);
        Api {
            pinassign: self.pinassign,
            pinenable0: self.pinenable0,
            _state: init_state::Initialized,
        }
    }
}

/// Interface to the switch matrix (SWM)
///
/// Holds the register API in its post-reset state together with the table of
/// every routable function. This API expects to be the sole owner of the SWM
/// peripheral.
pub struct SWM {
    /// Main SWM API
    pub api: Api<init_state::Unknown>,

    /// Movable functions
    pub movable_functions: MovableFunctions,

    /// Fixed functions
    pub fixed_functions: FixedFunctions,
}

impl SWM {
    /// Creates the interface to the switch matrix, in reset state
    pub fn new() -> (swm: SWM)
        ensures
            forall|reg: int| 0 <= reg < 12 ==> swm.api.spec_pinassign(reg) == 0xffff_ffffu32,
            swm.api.spec_pinenable0() == 0xffff_ffffu32,
            swm.movable_functions == MovableFunctions::spec_reset(),
            swm.fixed_functions == FixedFunctions::spec_reset(),
    {
        SWM {
            api: Api::new(),
            movable_functions: MovableFunctions::new(),
            fixed_functions: FixedFunctions::new(),
        }
    }
}

/// Implemented for types that represent movable functions
pub trait MovableFunction: Sized {
    /// Which pin-assign register holds the function's slot
    spec fn spec_register(&self) -> u32;

    /// Which byte slot of that register routes the function
    spec fn spec_slot(&self) -> u32;

    /// Assigns the movable function to the pin `P`
    ///
    /// Writes the pin's number into the function's slot and touches nothing
    /// else. This can route the function to a pin that is currently used for
    /// something else; making sure the assignment doesn't conflict with any
    /// other use of the pin is the caller's business.
    fn assign<P: PinName>(&mut self, swm: &mut Api)
        requires
            old(self).spec_register() < 12,
            old(self).spec_slot() < 4,
        ensures
            *final(self) == *old(self),
            final(swm).spec_assigned_pin(
                old(self).spec_register() as int,
                old(self).spec_slot(),
            ) == P::spec_id(),
            forall|s: u32|
                s < 4 && s != old(self).spec_slot() ==> final(swm).spec_assigned_pin(
                    old(self).spec_register() as int,
                    s,
                ) == old(swm).spec_assigned_pin(old(self).spec_register() as int, s),
            forall|r: int|
                0 <= r < 12 && r != old(self).spec_register() ==> final(swm).spec_pinassign(r)
                    == old(swm).spec_pinassign(r),
            final(swm).spec_pinenable0() == old(swm).spec_pinenable0(),
    ;
}

/// Implemented for types that represent fixed functions
pub trait FixedFunction: Sized {
    /// Which bit of the enable register switches the function
    spec fn spec_bit(&self) -> u32;

    /// Enables the fixed function
    ///
    /// Clears the function's enable-register bit and touches nothing else.
    /// The function can be enabled on a pin that is currently used for
    /// something else; making sure this doesn't conflict with any other use
    /// of the pin is the caller's business.
    fn enable(&mut self, swm: &mut Api)
        requires
            old(self).spec_bit() < 32,
        ensures
            *final(self) == *old(self),
            final(swm).spec_pinenable0() == old(swm).spec_pinenable0() & !(1u32
                << old(self).spec_bit()),
            final(swm).spec_fixed_enabled(old(self).spec_bit()),
            forall|r: int|
                0 <= r < 12 ==> final(swm).spec_pinassign(r) == old(swm).spec_pinassign(r),
    ;

    /// Disables the fixed function
    ///
    /// Sets the function's enable-register bit and touches nothing else.
    fn disable(&mut self, swm: &mut Api)
        requires
            old(self).spec_bit() < 32,
        ensures
            *final(self) == *old(self),
            final(swm).spec_pinenable0() == old(swm).spec_pinenable0() | (1u32
                << old(self).spec_bit()),
            !final(swm).spec_fixed_enabled(old(self).spec_bit()),
            forall|r: int|
                0 <= r < 12 ==> final(swm).spec_pinassign(r) == old(swm).spec_pinassign(r),
    ;
}

/// One movable function's slot in the pin-assign register file
///
/// The table in [`MovableFunctions`] holds one of these per function; the
/// coordinates say which byte of which pin-assign register routes it.
#[derive(Clone, Copy, PartialEq, Eq, Structural, Debug)]
pub struct MovableFn {
    /// The pin-assign register holding the function's slot
    pub register: u8,
    /// The byte slot within that register
    pub slot: u8,
}

impl MovableFunction for MovableFn {
    open spec fn spec_register(&self) -> u32 {
        self.register as u32
    }

    open spec fn spec_slot(&self) -> u32 {
        self.slot as u32
    }

    fn assign<P: PinName>(&mut self, swm: &mut Api) {
        let reg: usize = self.register as usize;
        let current: u32 = swm.pinassign[reg];
        let id: u32 = P::id() as u32;
        let updated: u32 = if self.slot == 0 {
            (current & 0xffff_ff00) | id
        } else if self.slot == 1 {
            (current & 0xffff_00ff) | (id << 8u32)
        } else if self.slot == 2 {
            (current & 0xff00_ffff) | (id << 16u32)
        } else {
            (current & 0x00ff_ffff) | (id << 24u32)
        };
        proof {
            let c = current;
            let v = updated;
            let p = P::spec_id() as u32;
            if self.slot == 0 {
                assert(v & 0xff == p && (v >> 8u32) & 0xff == (c >> 8u32) & 0xff && (v >> 16u32)
                    & 0xff == (c >> 16u32) & 0xff && (v >> 24u32) & 0xff == (c >> 24u32)
                    & 0xff) by (bit_vector)
                    requires
                        v == (c & 0xffff_ff00u32) | p,
                        p < 256u32,
                ;
            } else if self.slot == 1 {
                assert((v >> 8u32) & 0xff == p && v & 0xff == c & 0xff && (v >> 16u32) & 0xff == (c
                    >> 16u32) & 0xff && (v >> 24u32) & 0xff == (c >> 24u32) & 0xff) by (bit_vector)
                    requires
                        v == (c & 0xffff_00ffu32) | (p << 8u32),
                        p < 256u32,
                ;
            } else if self.slot == 2 {
                assert((v >> 16u32) & 0xff == p && v & 0xff == c & 0xff && (v >> 8u32) & 0xff == (c
                    >> 8u32) & 0xff && (v >> 24u32) & 0xff == (c >> 24u32) & 0xff) by (bit_vector)
                    requires
                        v == (c & 0xff00_ffffu32) | (p << 16u32),
                        p < 256u32,
                ;
            } else {
                assert((v >> 24u32) & 0xff == p && v & 0xff == c & 0xff && (v >> 8u32) & 0xff == (c
                    >> 8u32) & 0xff && (v >> 16u32) & 0xff == (c >> 16u32) & 0xff) by (bit_vector)
                    requires
                        v == (c & 0x00ff_ffffu32) | (p << 24u32),
                        p < 256u32,
                ;
            }
        }
        swm.pinassign[reg] = updated;
    }
}

/// One fixed function's bit in the enable register
///
/// The table in [`FixedFunctions`] holds one of these per function.
#[derive(Clone, Copy, PartialEq, Eq, Structural, Debug)]
pub struct FixedFn {
    /// The enable-register bit that switches the function
    pub bit: u8,
}

impl FixedFunction for FixedFn {
    open spec fn spec_bit(&self) -> u32 {
        self.bit as u32
    }

    fn enable(&mut self, swm: &mut Api) {
        let mask: u32 = 1u32 << (self.bit as u32);
        swm.pinenable0 = swm.pinenable0 & !mask;
        proof {
            assert(forall|x: u32, b: u32| (x & !(1u32 << b)) & (1u32 << b) == 0) by (bit_vector);
        }
    }

    fn disable(&mut self, swm: &mut Api) {
        let mask: u32 = 1u32 << (self.bit as u32);
        swm.pinenable0 = swm.pinenable0 | mask;
        proof {
            assert(forall|x: u32, b: u32|
                b < 32 ==> (x | (1u32 << b)) & (1u32 << b) != 0) by (bit_vector);
        }
    }
}

/// Provides access to all movable functions
///
/// One table entry per function, each naming where in the register model
/// it lives.
pub struct MovableFunctions {
    /// The movable function U0_TXD
    pub u0_txd: MovableFn,
    /// The movable function U0_RXD
    pub u0_rxd: MovableFn,
    /// The movable function U0_RTS
    pub u0_rts: MovableFn,
    /// The movable function U0_CTS
    pub u0_cts: MovableFn,
    /// The movable function U0_SCLK
    pub u0_sclk: MovableFn,
    /// The movable function U1_TXD
    pub u1_txd: MovableFn,
    /// The movable function U1_RXD
    pub u1_rxd: MovableFn,
    /// The movable function U1_RTS
    pub u1_rts: MovableFn,
    /// The movable function U1_CTS
    pub u1_cts: MovableFn,
    /// The movable function U1_SCLK
    pub u1_sclk: MovableFn,
    /// The movable function U2_TXD
    pub u2_txd: MovableFn,
    /// The movable function U2_RXD
    pub u2_rxd: MovableFn,
    /// The movable function U2_RTS
    pub u2_rts: MovableFn,
    /// The movable function U2_CTS
    pub u2_cts: MovableFn,
    /// The movable function U2_SCLK
    pub u2_sclk: MovableFn,
    /// The movable function SPI0_SCK
    pub spi0_sck: MovableFn,
    /// The movable function SPI0_MOSI
    pub spi0_mosi: MovableFn,
    /// The movable function SPI0_MISO
    pub spi0_miso: MovableFn,
    /// The movable function SPI0_SSEL0
    pub spi0_ssel0: MovableFn,
    /// The movable function SPI0_SSEK1
    pub spi0_ssek1: MovableFn,
    /// The movable function SPI0_SSEL2
    pub spi0_ssel2: MovableFn,
    /// The movable function SPI0_SSEL3
    pub spi0_ssel3: MovableFn,
    /// The movable function SPI1_SCK
    pub spi1_sck: MovableFn,
    /// The movable function SPI1_MOSI
    pub spi1_mosi: MovableFn,
    /// The movable function SPI1_MISO
    pub spi1_miso: MovableFn,
    /// The movable function SPI1_SSEL0
    pub spi1_ssel0: MovableFn,
    /// The movable function SPI1_SSEL1
    pub spi1_ssel1: MovableFn,
    /// The movable function SCT_PIN0
    pub sct_pin0: MovableFn,
    /// The movable function SCT_PIN1
    pub sct_pin1: MovableFn,
    /// The movable function SCT_PIN2
    pub sct_pin2: MovableFn,
    /// The movable function SCT_PIN3
    pub sct_pin3: MovableFn,
    /// The movable function SCT_OUT0
    pub sct_out0: MovableFn,
    /// The movable function SCT_OUT1
    pub sct_out1: MovableFn,
    /// The movable function SCT_OUT2
    pub sct_out2: MovableFn,
    /// The movable function SCT_OUT3
    pub sct_out3: MovableFn,
    /// The movable function SCT_OUT4
    pub sct_out4: MovableFn,
    /// The movable function SCT_OUT5
    pub sct_out5: MovableFn,
    /// The movable function I2C1_SDA
    pub i2c1_sda: MovableFn,
    /// The movable function I2C1_SCL
    pub i2c1_scl: MovableFn,
    /// The movable function I2C2_SDA
    pub i2c2_sda: MovableFn,
    /// The movable function I2C2_SCL
    pub i2c2_scl: MovableFn,
    /// The movable function I2C3_SDA
    pub i2c3_sda: MovableFn,
    /// The movable function I2C3_SCL
    pub i2c3_scl: MovableFn,
    /// The movable function ADC_PINTRIG0
    pub adc_pintrig0: MovableFn,
    /// The movable function ACD_PINTRIG1
    pub acd_pintrig1: MovableFn,
    /// The movable function ACMP_O
    pub acmp_o: MovableFn,
    /// The movable function CLKOUT
    pub clkout: MovableFn,
    /// The movable function GPIO_INT_BMAT
    pub gpio_int_bmat: MovableFn,
}

impl MovableFunctions {
    /// The slot table: each function's place in the pin-assign register file
    pub open spec fn spec_reset() -> MovableFunctions {
        MovableFunctions {
            u0_txd: MovableFn { register: 0, slot: 0 },
            u0_rxd: MovableFn { register: 0, slot: 1 },
            u0_rts: MovableFn { register: 0, slot: 2 },
            u0_cts: MovableFn { register: 0, slot: 3 },
            u0_sclk: MovableFn { register: 1, slot: 0 },
            u1_txd: MovableFn { register: 1, slot: 1 },
            u1_rxd: MovableFn { register: 1, slot: 2 },
            u1_rts: MovableFn { register: 1, slot: 3 },
            u1_cts: MovableFn { register: 2, slot: 0 },
            u1_sclk: MovableFn { register: 2, slot: 1 },
            u2_txd: MovableFn { register: 2, slot: 2 },
            u2_rxd: MovableFn { register: 2, slot: 3 },
            u2_rts: MovableFn { register: 3, slot: 0 },
            u2_cts: MovableFn { register: 3, slot: 1 },
            u2_sclk: MovableFn { register: 3, slot: 2 },
            spi0_sck: MovableFn { register: 3, slot: 3 },
            spi0_mosi: MovableFn { register: 4, slot: 0 },
            spi0_miso: MovableFn { register: 4, slot: 1 },
            spi0_ssel0: MovableFn { register: 4, slot: 2 },
            spi0_ssek1: MovableFn { register: 4, slot: 3 },
            spi0_ssel2: MovableFn { register: 5, slot: 0 },
            spi0_ssel3: MovableFn { register: 5, slot: 1 },
            spi1_sck: MovableFn { register: 5, slot: 2 },
            spi1_mosi: MovableFn { register: 5, slot: 3 },
            spi1_miso: MovableFn { register: 6, slot: 0 },
            spi1_ssel0: MovableFn { register: 6, slot: 1 },
            spi1_ssel1: MovableFn { register: 6, slot: 2 },
            sct_pin0: MovableFn { register: 6, slot: 3 },
            sct_pin1: MovableFn { register: 7, slot: 0 },
            sct_pin2: MovableFn { register: 7, slot: 1 },
            sct_pin3: MovableFn { register: 7, slot: 2 },
            sct_out0: MovableFn { register: 7, slot: 3 },
            sct_out1: MovableFn { register: 8, slot: 0 },
            sct_out2: MovableFn { register: 8, slot: 1 },
            sct_out3: MovableFn { register: 8, slot: 2 },
            sct_out4: MovableFn { register: 8, slot: 3 },
            sct_out5: MovableFn { register: 9, slot: 0 },
            i2c1_sda: MovableFn { register: 9, slot: 1 },
            i2c1_scl: MovableFn { register: 9, slot: 2 },
            i2c2_sda: MovableFn { register: 9, slot: 3 },
            i2c2_scl: MovableFn { register: 10, slot: 0 },
            i2c3_sda: MovableFn { register: 10, slot: 1 },
            i2c3_scl: MovableFn { register: 10, slot: 2 },
            adc_pintrig0: MovableFn { register: 10, slot: 3 },
            acd_pintrig1: MovableFn { register: 11, slot: 0 },
            acmp_o: MovableFn { register: 11, slot: 1 },
            clkout: MovableFn { register: 11, slot: 2 },
            gpio_int_bmat: MovableFn { register: 11, slot: 3 },
        }
    }

    fn new() -> (t: MovableFunctions)
        ensures
            t == MovableFunctions::spec_reset(),
    {
        MovableFunctions {
            u0_txd: MovableFn { register: 0, slot: 0 },
            u0_rxd: MovableFn { register: 0, slot: 1 },
            u0_rts: MovableFn { register: 0, slot: 2 },
            u0_cts: MovableFn { register: 0, slot: 3 },
            u0_sclk: MovableFn { register: 1, slot: 0 },
            u1_txd: MovableFn { register: 1, slot: 1 },
            u1_rxd: MovableFn { register: 1, slot: 2 },
            u1_rts: MovableFn { register: 1, slot: 3 },
            u1_cts: MovableFn { register: 2, slot: 0 },
            u1_sclk: MovableFn { register: 2, slot: 1 },
            u2_txd: MovableFn { register: 2, slot: 2 },
            u2_rxd: MovableFn { register: 2, slot: 3 },
            u2_rts: MovableFn { register: 3, slot: 0 },
            u2_cts: MovableFn { register: 3, slot: 1 },
            u2_sclk: MovableFn { register: 3, slot: 2 },
            spi0_sck: MovableFn { register: 3, slot: 3 },
            spi0_mosi: MovableFn { register: 4, slot: 0 },
            spi0_miso: MovableFn { register: 4, slot: 1 },
            spi0_ssel0: MovableFn { register: 4, slot: 2 },
            spi0_ssek1: MovableFn { register: 4, slot: 3 },
            spi0_ssel2: MovableFn { register: 5, slot: 0 },
            spi0_ssel3: MovableFn { register: 5, slot: 1 },
            spi1_sck: MovableFn { register: 5, slot: 2 },
            spi1_mosi: MovableFn { register: 5, slot: 3 },
            spi1_miso: MovableFn { register: 6, slot: 0 },
            spi1_ssel0: MovableFn { register: 6, slot: 1 },
            spi1_ssel1: MovableFn { register: 6, slot: 2 },
            sct_pin0: MovableFn { register: 6, slot: 3 },
            sct_pin1: MovableFn { register: 7, slot: 0 },
            sct_pin2: MovableFn { register: 7, slot: 1 },
            sct_pin3: MovableFn { register: 7, slot: 2 },
            sct_out0: MovableFn { register: 7, slot: 3 },
            sct_out1: MovableFn { register: 8, slot: 0 },
            sct_out2: MovableFn { register: 8, slot: 1 },
            sct_out3: MovableFn { register: 8, slot: 2 },
            sct_out4: MovableFn { register: 8, slot: 3 },
            sct_out5: MovableFn { register: 9, slot: 0 },
            i2c1_sda: MovableFn { register: 9, slot: 1 },
            i2c1_scl: MovableFn { register: 9, slot: 2 },
            i2c2_sda: MovableFn { register: 9, slot: 3 },
            i2c2_scl: MovableFn { register: 10, slot: 0 },
            i2c3_sda: MovableFn { register: 10, slot: 1 },
            i2c3_scl: MovableFn { register: 10, slot: 2 },
            adc_pintrig0: MovableFn { register: 10, slot: 3 },
            acd_pintrig1: MovableFn { register: 11, slot: 0 },
            acmp_o: MovableFn { register: 11, slot: 1 },
            clkout: MovableFn { register: 11, slot: 2 },
            gpio_int_bmat: MovableFn { register: 11, slot: 3 },
        }
    }
}

/// Provides access to all fixed functions
///
/// One table entry per function, each naming where in the register model
/// it lives.
pub struct FixedFunctions {
    /// The fixed function ACMP_I1
    pub acmp_i1: FixedFn,
    /// The fixed function ACMP_I2
    pub acmp_i2: FixedFn,
    /// The fixed function ACMP_I3
    pub acmp_i3: FixedFn,
    /// The fixed function ACMP_I4
    pub acmp_i4: FixedFn,
    /// The fixed function SWCLK
    pub swclk: FixedFn,
    /// The fixed function SWDIO
    pub swdio: FixedFn,
    /// The fixed function XTALIN
    pub xtalin: FixedFn,
    /// The fixed function XTALOUT
    pub xtalout: FixedFn,
    /// The fixed function RESETN
    pub resetn: FixedFn,
    /// The fixed function CLKIN
    pub clkin: FixedFn,
    /// The fixed function VDDCMP
    pub vddcmp: FixedFn,
    /// The fixed function I2C0_SDA
    pub i2c0_sda: FixedFn,
    /// The fixed function I2C0_SCL
    pub i2c0_scl: FixedFn,
    /// The fixed function ADC_0
    pub adc_0: FixedFn,
    /// The fixed function ADC_1
    pub adc_1: FixedFn,
    /// The fixed function ADC_2
    pub adc_2: FixedFn,
    /// The fixed function ADC_3
    pub adc_3: FixedFn,
    /// The fixed function ADC_4
    pub adc_4: FixedFn,
    /// The fixed function ADC_5
    pub adc_5: FixedFn,
    /// The fixed function ADC_6
    pub adc_6: FixedFn,
    /// The fixed function ADC_7
    pub adc_7: FixedFn,
    /// The fixed function ADC_8
    pub adc_8: FixedFn,
    /// The fixed function ADC_9
    pub adc_9: FixedFn,
    /// The fixed function ADC_10
    pub adc_10: FixedFn,
    /// The fixed function ADC_11
    pub adc_11: FixedFn,
}

impl FixedFunctions {
    /// The bit table: each function's bit in the enable register
    pub open spec fn spec_reset() -> FixedFunctions {
        FixedFunctions {
            acmp_i1: FixedFn { bit: 0 },
            acmp_i2: FixedFn { bit: 1 },
            acmp_i3: FixedFn { bit: 2 },
            acmp_i4: FixedFn { bit: 3 },
            swclk: FixedFn { bit: 4 },
            swdio: FixedFn { bit: 5 },
            xtalin: FixedFn { bit: 6 },
            xtalout: FixedFn { bit: 7 },
            resetn: FixedFn { bit: 8 },
            clkin: FixedFn { bit: 9 },
            vddcmp: FixedFn { bit: 10 },
            i2c0_sda: FixedFn { bit: 11 },
            i2c0_scl: FixedFn { bit: 12 },
            adc_0: FixedFn { bit: 13 },
            adc_1: FixedFn { bit: 14 },
            adc_2: FixedFn { bit: 15 },
            adc_3: FixedFn { bit: 16 },
            adc_4: FixedFn { bit: 17 },
            adc_5: FixedFn { bit: 18 },
            adc_6: FixedFn { bit: 19 },
            adc_7: FixedFn { bit: 20 },
            adc_8: FixedFn { bit: 21 },
            adc_9: FixedFn { bit: 22 },
            adc_10: FixedFn { bit: 23 },
            adc_11: FixedFn { bit: 24 },
        }
    }

    fn new() -> (t: FixedFunctions)
        ensures
            t == FixedFunctions::spec_reset(),
    {
        FixedFunctions {
            acmp_i1: FixedFn { bit: 0 },
            acmp_i2: FixedFn { bit: 1 },
            acmp_i3: FixedFn { bit: 2 },
            acmp_i4: FixedFn { bit: 3 },
            swclk: FixedFn { bit: 4 },
            swdio: FixedFn { bit: 5 },
            xtalin: FixedFn { bit: 6 },
            xtalout: FixedFn { bit: 7 },
            resetn: FixedFn { bit: 8 },
            clkin: FixedFn { bit: 9 },
            vddcmp: FixedFn { bit: 10 },
            i2c0_sda: FixedFn { bit: 11 },
            i2c0_scl: FixedFn { bit: 12 },
            adc_0: FixedFn { bit: 13 },
            adc_1: FixedFn { bit: 14 },
            adc_2: FixedFn { bit: 15 },
            adc_3: FixedFn { bit: 16 },
            adc_4: FixedFn { bit: 17 },
            adc_5: FixedFn { bit: 18 },
            adc_6: FixedFn { bit: 19 },
            adc_7: FixedFn { bit: 20 },
            adc_8: FixedFn { bit: 21 },
            adc_9: FixedFn { bit: 22 },
            adc_10: FixedFn { bit: 23 },
            adc_11: FixedFn { bit: 24 },
        }
    }
}

} // verus!
