use esp32_hal::matrix::{
    gpio_matrix_in, gpio_matrix_out, MATRIX_CONST_PIN, MATRIX_IN_INV, MATRIX_IN_SEL,
    MATRIX_OEN_INV, MATRIX_OUT_INV,
};
use esp32_hal::regs::GpioRegs;

#[test]
fn output_binding_stores_signal_word() {
    let mut r = GpioRegs::new();
    gpio_matrix_out(&mut r, 5, 30, false, false);
    assert_eq!(r.func_out_sel[5], 30);
}

#[test]
fn output_binding_inversion_bits() {
    let mut r = GpioRegs::new();
    gpio_matrix_out(&mut r, 5, 30, true, false);
    assert_eq!(r.func_out_sel[5], 30 | MATRIX_OUT_INV);
    gpio_matrix_out(&mut r, 5, 30, true, true);
    assert_eq!(r.func_out_sel[5], 30 | MATRIX_OUT_INV | MATRIX_OEN_INV);
}

#[test]
fn input_binding_stores_pin_word() {
    let mut r = GpioRegs::new();
    gpio_matrix_in(&mut r, 4, 30, false);
    assert_eq!(r.func_in_sel[30], 4 | MATRIX_IN_SEL);
    gpio_matrix_in(&mut r, 4, 29, true);
    assert_eq!(r.func_in_sel[29], 4 | MATRIX_IN_INV | MATRIX_IN_SEL);
}

#[test]
fn constant_pin_bypasses_matrix_bit() {
    let mut r = GpioRegs::new();
    gpio_matrix_in(&mut r, MATRIX_CONST_PIN, 12, false);
    assert_eq!(r.func_in_sel[12], MATRIX_CONST_PIN);
}

#[test]
fn input_rebind_fully_replaces_prior_binding() {
    // Bind signal 30 first to pin 4, then to pin 7.
    let mut twice = GpioRegs::new();
    gpio_matrix_in(&mut twice, 4, 30, false);
    gpio_matrix_in(&mut twice, 7, 30, false);

    // Binding only pin 7 must give the identical block: no residual
    // routing to pin 4 anywhere.
    let mut once = GpioRegs::new();
    gpio_matrix_in(&mut once, 7, 30, false);

    assert_eq!(twice, once);
    assert_eq!(twice.func_in_sel[30], 7 | MATRIX_IN_SEL);
}

#[test]
fn output_rebind_fully_replaces_prior_binding() {
    let mut twice = GpioRegs::new();
    gpio_matrix_out(&mut twice, 9, 30, true, true);
    gpio_matrix_out(&mut twice, 9, 29, false, false);

    let mut once = GpioRegs::new();
    gpio_matrix_out(&mut once, 9, 29, false, false);

    assert_eq!(twice, once);
    assert_eq!(twice.func_out_sel[9], 29);
}
