//! The switch matrix: initialization, routing movable functions, and
//! switching fixed functions, observed on the register model.

use lpc82x_hal::gpio::{PIO0_0, PIO0_3, PIO0_4};
use lpc82x_hal::swm::{FixedFunction, MovableFunction, SWM};
use lpc82x_hal::syscon;

#[test]
fn init_enables_the_switch_matrix_clock_and_keeps_registers() {
    let swm = SWM::new();
    let mut syscon = syscon::Api::new();
    assert!(!syscon.clock_enabled(syscon::SWM_CLOCK));
    let api = swm.api.init(&mut syscon);
    assert!(syscon.clock_enabled(syscon::SWM_CLOCK));
    for reg in 0..12 {
        assert_eq!(api.read_pinassign(reg), 0xffff_ffff);
    }
    assert_eq!(api.read_pinenable0(), 0xffff_ffff);
}

#[test]
fn assigning_a_movable_function_writes_only_its_slot() {
    let mut swm = SWM::new();
    let mut syscon = syscon::Api::new();
    let mut api = swm.api.init(&mut syscon);

    // U0_TXD lives in slot 0 of pin-assign register 0.
    swm.movable_functions.u0_txd.assign::<PIO0_4>(&mut api);
    assert_eq!(api.read_pinassign(0), 0xffff_ff04);

    // U0_RXD lives in slot 1 of the same register.
    swm.movable_functions.u0_rxd.assign::<PIO0_0>(&mut api);
    assert_eq!(api.read_pinassign(0), 0xffff_0004);

    // Other registers stay untouched.
    for reg in 1..12 {
        assert_eq!(api.read_pinassign(reg), 0xffff_ffff);
    }
    assert_eq!(api.read_pinenable0(), 0xffff_ffff);
}

#[test]
fn reassigning_a_movable_function_overwrites_its_slot() {
    let mut swm = SWM::new();
    let mut syscon = syscon::Api::new();
    let mut api = swm.api.init(&mut syscon);

    swm.movable_functions.u0_txd.assign::<PIO0_4>(&mut api);
    swm.movable_functions.u0_txd.assign::<PIO0_3>(&mut api);
    assert_eq!(api.read_pinassign(0), 0xffff_ff03);
}

#[test]
fn high_slots_and_registers_route_where_the_table_says() {
    let mut swm = SWM::new();
    let mut syscon = syscon::Api::new();
    let mut api = swm.api.init(&mut syscon);

    // GPIO_INT_BMAT lives in slot 3 of pin-assign register 11.
    swm.movable_functions.gpio_int_bmat.assign::<PIO0_3>(&mut api);
    assert_eq!(api.read_pinassign(11), 0x03ff_ffff);

    // CLKOUT lives in slot 2 of the same register.
    swm.movable_functions.clkout.assign::<PIO0_4>(&mut api);
    assert_eq!(api.read_pinassign(11), 0x0304_ffff);
}

#[test]
fn fixed_functions_switch_only_their_bit() {
    let mut swm = SWM::new();
    let mut syscon = syscon::Api::new();
    let mut api = swm.api.init(&mut syscon);

    // SWCLK is switched by bit 4; enabling clears the bit.
    swm.fixed_functions.swclk.enable(&mut api);
    assert_eq!(api.read_pinenable0(), 0xffff_ffef);

    // ACMP_I1 is switched by bit 0.
    swm.fixed_functions.acmp_i1.enable(&mut api);
    assert_eq!(api.read_pinenable0(), 0xffff_ffee);

    // ADC_11 is switched by bit 24.
    swm.fixed_functions.adc_11.enable(&mut api);
    assert_eq!(api.read_pinenable0(), 0xfeff_ffee);

    // Disabling sets the bit again and leaves the rest alone.
    swm.fixed_functions.swclk.disable(&mut api);
    assert_eq!(api.read_pinenable0(), 0xfeff_fffe);

    // Pin routing is untouched by all of this.
    for reg in 0..12 {
        assert_eq!(api.read_pinassign(reg), 0xffff_ffff);
    }
}
