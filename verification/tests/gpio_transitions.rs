use esp32_hal::gpio::PLAIN_GPIO_SEL;
use esp32_hal::regs::{
    PinRegs, GPIO_PIN_PAD_DRIVER, IOMUX_FUN_IE, IOMUX_FUN_WPD, IOMUX_FUN_WPU, IOMUX_MCU_SEL_MASK,
    IOMUX_MCU_SEL_SHIFT,
};

fn mcu_sel_of(word: u32) -> u32 {
    (word & IOMUX_MCU_SEL_MASK) >> IOMUX_MCU_SEL_SHIFT
}

#[test]
fn split_hands_out_matching_pin_numbers() {
    let parts = PinRegs::new().split_pins();
    assert_eq!(parts.gpio0.id(), 0);
    assert_eq!(parts.gpio4.id(), 4);
    assert_eq!(parts.gpio15.id(), 15);
    assert_eq!(parts.gpio23.id(), 23);
    assert_eq!(parts.gpio25.id(), 25);
    assert_eq!(parts.gpio32.id(), 32);
    assert_eq!(parts.gpio39.id(), 39);
}

#[test]
fn push_pull_output_recipe() {
    let mut parts = PinRegs::new().split_pins();
    let _pin = parts.gpio5.into_push_pull_output(&mut parts.regs);
    let r = &parts.regs;
    assert_eq!(r.gpio.enable & (1 << 5), 1 << 5);
    assert_eq!(r.gpio.func_out_sel[5], PLAIN_GPIO_SEL);
    let w = r.iomux.pins[5];
    assert_eq!(mcu_sel_of(w), 2);
    assert_eq!(w & IOMUX_FUN_WPU, IOMUX_FUN_WPU);
    assert_eq!(w & IOMUX_FUN_WPD, IOMUX_FUN_WPD);
}

#[test]
fn open_drain_output_clears_both_pulls() {
    let mut parts = PinRegs::new().split_pins();
    let _pin = parts.gpio4.into_open_drain_output(&mut parts.regs);
    let w = parts.regs.iomux.pins[4];
    assert_eq!(mcu_sel_of(w), 2);
    assert_eq!(w & IOMUX_FUN_WPU, 0);
    assert_eq!(w & IOMUX_FUN_WPD, 0);
}

#[test]
fn pull_up_input_recipe() {
    let mut parts = PinRegs::new().split_pins();
    let _pin = parts.gpio13.into_pull_up_input(&mut parts.regs);
    let r = &parts.regs;
    assert_eq!(r.gpio.func_in_sel[13], PLAIN_GPIO_SEL);
    let w = r.iomux.pins[13];
    assert_eq!(mcu_sel_of(w), 2);
    assert_eq!(w & IOMUX_FUN_IE, IOMUX_FUN_IE);
    assert_eq!(w & IOMUX_FUN_WPU, IOMUX_FUN_WPU);
    assert_eq!(w & IOMUX_FUN_WPD, 0);
}

#[test]
fn pull_down_input_recipe() {
    let mut parts = PinRegs::new().split_pins();
    let _pin = parts.gpio12.into_pull_down_input(&mut parts.regs);
    let w = parts.regs.iomux.pins[12];
    assert_eq!(w & IOMUX_FUN_IE, IOMUX_FUN_IE);
    assert_eq!(w & IOMUX_FUN_WPU, 0);
    assert_eq!(w & IOMUX_FUN_WPD, IOMUX_FUN_WPD);
}

#[test]
fn floating_input_clears_both_pulls() {
    let mut parts = PinRegs::new().split_pins();
    let _pin = parts.gpio17.into_floating_input(&mut parts.regs);
    let w = parts.regs.iomux.pins[17];
    assert_eq!(w & IOMUX_FUN_IE, IOMUX_FUN_IE);
    assert_eq!(w & IOMUX_FUN_WPU, 0);
    assert_eq!(w & IOMUX_FUN_WPD, 0);
}

#[test]
fn bank1_pin_uses_second_enable_register() {
    let mut parts = PinRegs::new().split_pins();
    let _pin = parts.gpio33.into_push_pull_output(&mut parts.regs);
    let r = &parts.regs;
    assert_eq!(r.gpio.enable, 0);
    assert_eq!(r.gpio.enable1 & (1 << 1), 1 << 1);
    assert_eq!(r.gpio.func_out_sel[33], PLAIN_GPIO_SEL);
}

#[test]
fn analog_transition_configures_rtc_channel() {
    let mut parts = PinRegs::new().split_pins();
    parts.regs.rtcio.enable = 1 << 6;
    let _pin = parts.gpio25.into_analog(&mut parts.regs);
    let ch = &parts.regs.rtcio.channels[6];
    assert!(ch.mux_sel);
    assert_eq!(ch.fun_sel, 0);
    assert!(!ch.fun_ie);
    assert!(!ch.pad_driver);
    assert!(!ch.rue);
    assert!(!ch.rde);
    assert_eq!(parts.regs.rtcio.enable, 0);
}

#[test]
fn analog_transition_on_sensor_pad_leaves_missing_resistor_bits() {
    // Channels of the sensor pads carry no pull-resistor enables, so the
    // analog recipe must not touch those fields.
    let mut parts = PinRegs::new().split_pins();
    parts.regs.rtcio.channels[0].rue = true;
    parts.regs.rtcio.channels[0].rde = true;
    let _pin = parts.gpio36.into_analog(&mut parts.regs);
    let ch = &parts.regs.rtcio.channels[0];
    assert!(ch.mux_sel);
    assert!(ch.rue);
    assert!(ch.rde);
}

#[test]
fn alternate_function_one_selects_raw_function_zero() {
    let mut parts = PinRegs::new().split_pins();
    let _pin = parts.gpio19.into_alternate_1(&mut parts.regs);
    assert_eq!(mcu_sel_of(parts.regs.iomux.pins[19]), 0);
}

#[test]
fn digital_transition_detaches_rtc_routing() {
    let mut parts = PinRegs::new().split_pins();
    let pin = parts.gpio4.into_analog(&mut parts.regs);
    assert!(parts.regs.rtcio.channels[10].mux_sel);
    let _pin = pin.into_push_pull_output(&mut parts.regs);
    assert!(!parts.regs.rtcio.channels[10].mux_sel);
}

#[test]
fn alternate_function_writes_raw_selector() {
    let mut parts = PinRegs::new().split_pins();
    let _pin = parts.gpio18.into_alternate_4(&mut parts.regs);
    let w = parts.regs.iomux.pins[18];
    assert_eq!(mcu_sel_of(w), 3);
    assert_eq!(w & IOMUX_FUN_WPU, 0);
    assert_eq!(w & IOMUX_FUN_WPD, 0);
}

#[test]
fn push_pull_start_high_presets_the_level() {
    let mut parts = PinRegs::new().split_pins();
    let pin = parts.gpio9.into_push_pull_start_high(&mut parts.regs);
    assert!(pin.is_set_high(&parts.regs));
    assert_eq!(parts.regs.gpio.enable & (1 << 9), 1 << 9);
}

#[test]
fn push_pull_start_low_presets_the_level() {
    let mut parts = PinRegs::new().split_pins();
    parts.regs.gpio.out = 1 << 10;
    let pin = parts.gpio10.into_push_pull_start_low(&mut parts.regs);
    assert!(pin.is_set_low(&parts.regs));
}

#[test]
fn output_round_trip_restores_registers_exactly() {
    // A direct push-pull transition on a fresh bank ...
    let mut direct = PinRegs::new().split_pins();
    let _direct_pin = direct.gpio14.into_push_pull_output(&mut direct.regs);

    // ... and one that detours through open drain and back.
    let mut detour = PinRegs::new().split_pins();
    let pin = detour.gpio14.into_push_pull_output(&mut detour.regs);
    let pin = pin.into_open_drain_output(&mut detour.regs);
    let _pin = pin.into_push_pull_output(&mut detour.regs);

    assert_eq!(direct.regs, detour.regs);
}

#[test]
fn every_mode_is_reachable_from_every_other() {
    // One pin walked through the whole capability graph; each transition
    // consumes the previous handle, so exactly one handle is live at any
    // point of the chain.
    let mut parts = PinRegs::new().split_pins();
    let r = &mut parts.regs;
    let pin = parts.gpio15.into_floating_input(r);
    let pin = pin.into_pull_up_input(r);
    let pin = pin.into_pull_down_input(r);
    let pin = pin.into_push_pull_output(r);
    let pin = pin.into_open_drain_output(r);
    let pin = pin.into_alternate_2(r);
    let pin = pin.into_analog(r);
    assert!(r.rtcio.channels[13].mux_sel);
    let pin = pin.into_floating_input(r);
    assert!(!r.rtcio.channels[13].mux_sel);
    assert_eq!(pin.id(), 15);
    let w = r.iomux.pins[15];
    assert_eq!(w & IOMUX_FUN_WPU, 0);
    assert_eq!(w & IOMUX_FUN_WPD, 0);
    assert_eq!(w & IOMUX_FUN_IE, IOMUX_FUN_IE);
}

#[test]
fn set_and_read_output_level() {
    let mut parts = PinRegs::new().split_pins();
    let pin = parts.gpio7.into_push_pull_output(&mut parts.regs);
    pin.set_high(&mut parts.regs);
    assert_eq!(parts.regs.gpio.out & (1 << 7), 1 << 7);
    assert!(pin.is_set_high(&parts.regs));
    pin.set_low(&mut parts.regs);
    assert_eq!(parts.regs.gpio.out & (1 << 7), 0);
    assert!(pin.is_set_low(&parts.regs));
    pin.toggle(&mut parts.regs);
    assert!(pin.is_set_high(&parts.regs));
    pin.toggle(&mut parts.regs);
    assert!(pin.is_set_low(&parts.regs));
}

#[test]
fn input_reads_sampled_level_register() {
    let mut parts = PinRegs::new().split_pins();
    let pin = parts.gpio16.into_floating_input(&mut parts.regs);
    assert!(pin.is_low(&parts.regs));
    parts.regs.gpio.in_ |= 1 << 16;
    assert!(pin.is_high(&parts.regs));
}

#[test]
fn bank1_input_reads_second_level_register() {
    let mut parts = PinRegs::new().split_pins();
    let pin = parts.gpio36.into_floating_input(&mut parts.regs);
    parts.regs.gpio.in1 |= 1 << 4;
    assert!(pin.is_high(&parts.regs));
    parts.regs.gpio.in1 = 0;
    assert!(pin.is_low(&parts.regs));
}

#[test]
fn open_drain_pin_reads_and_drives() {
    let mut parts = PinRegs::new().split_pins();
    let pin = parts.gpio22.into_open_drain_output(&mut parts.regs);
    pin.set_high(&mut parts.regs);
    assert_eq!(parts.regs.gpio.out & (1 << 22), 1 << 22);
    parts.regs.gpio.in_ |= 1 << 22;
    assert!(pin.is_high(&parts.regs));
}

#[test]
fn pad_cfg_word_for_pin_zero_starts_clear() {
    let parts = PinRegs::new().split_pins();
    assert_eq!(parts.regs.gpio.pin_cfg[0] & GPIO_PIN_PAD_DRIVER, 0);
}
