use esp32_hal::i2c::{Error, I2c0, I2c1, Pins, TxnPhase, CMD_STOP, CMD_WRITE_OPCODE, I2C};
use esp32_hal::regs::{DportRegs, I2cRegs, PinRegs, DPORT_I2C0_BIT};

/// A fully constructed master on pins 4 (SDA) and 15 (SCL), with the
/// register banks it was configured against.
fn build_bus() -> (I2C<I2c0>, DportRegs, PinRegs) {
    let mut parts = PinRegs::new().split_pins();
    let sda = parts.gpio4.into_open_drain_output(&mut parts.regs);
    let scl = parts.gpio15.into_open_drain_output(&mut parts.regs);
    let mut dport = DportRegs::new();
    let dev = I2c0 { block: I2cRegs::new() };
    let i2c = I2C::new(dev, Pins { sda, scl }, &mut dport, &mut parts.regs);
    (i2c, dport, parts.regs)
}

#[test]
fn construction_configures_controller() {
    let (i2c, dport, _pins) = build_bus();
    let r = i2c.registers();
    assert!(r.ms_mode);
    assert!(r.sda_force_out);
    assert!(r.scl_force_out);
    assert!(!r.tx_lsb_first);
    assert!(!r.rx_lsb_first);
    assert!(!r.nonfifo_en);
    assert!(r.clk_en);
    assert!(!r.trans_start);
    assert_eq!(r.int_ena, 0);
    assert_eq!(r.int_st, 0);
    assert!(r.sda_filter_en);
    assert!(r.scl_filter_en);
    assert_eq!(r.sda_filter_thres, 7);
    assert_eq!(r.scl_filter_thres, 7);
    assert_eq!(r.scl_low_period, 200);
    assert_eq!(r.scl_high_period, 200);
    assert_eq!(r.sda_hold, 100);
    assert_eq!(r.sda_sample, 100);
    assert_eq!(r.scl_rstart_setup, 200);
    assert_eq!(r.scl_stop_setup, 200);
    assert_eq!(r.scl_start_hold, 200);
    assert_eq!(r.scl_stop_hold, 200);
    assert_eq!(r.timeout, 4000);
    assert!(r.tx_fifo.is_empty());
    assert_eq!(i2c.phase(), TxnPhase::Idle);
    assert_eq!(dport.perip_clk_en, DPORT_I2C0_BIT);
    assert_eq!(dport.perip_rst_en, 0);
    assert_eq!(i2c.pins().sda.id(), 4);
    assert_eq!(i2c.pins().scl.id(), 15);
}

#[test]
fn construction_binds_pins_to_bus_signals() {
    let (_i2c, _dport, pins) = build_bus();
    // SDA on pin 4 routed to signal 30, SCL on pin 15 to signal 29.
    assert_eq!(pins.gpio.func_out_sel[4], 30);
    assert_eq!(pins.gpio.func_out_sel[15], 29);
    assert_eq!(pins.gpio.func_in_sel[30], 4 | 128);
    assert_eq!(pins.gpio.func_in_sel[29], 15 | 128);
    // Both lines driven high as the idle level, pads open drain.
    assert_eq!(pins.gpio.out & (1 << 4), 1 << 4);
    assert_eq!(pins.gpio.out & (1 << 15), 1 << 15);
    assert_eq!(pins.gpio.pin_cfg[4], 0x4);
    assert_eq!(pins.gpio.pin_cfg[15], 0x4);
    // IO-mux: GPIO function, pull-up, input buffer, sleep output enable.
    assert_eq!(pins.iomux.pins[4], 0x2301);
    assert_eq!(pins.iomux.pins[15], 0x2301);
}

#[test]
fn write_stages_frame_and_commands() {
    let (mut i2c, _dport, _pins) = build_bus();
    let res = i2c.write(0x42, &[0xAA, 0x55]);
    assert!(res.is_ok());
    let r = i2c.registers();
    assert_eq!(r.comd0, 0);
    assert_eq!(r.comd1, CMD_WRITE_OPCODE | 3);
    assert_eq!(r.comd2, CMD_STOP);
    assert!(!r.comd0_done);
    assert!(!r.comd1_done);
    assert!(!r.comd2_done);
    assert!(r.trans_start);
    assert_eq!(r.tx_fifo, vec![0x84, 0xAA, 0x55]);
    assert_eq!(i2c.phase(), TxnPhase::AwaitRstart);
}

#[test]
fn write_empty_payload_sends_address_alone() {
    let (mut i2c, _dport, _pins) = build_bus();
    let res = i2c.write(0x21, &[]);
    assert!(res.is_ok());
    let r = i2c.registers();
    assert_eq!(r.tx_fifo, vec![0x42]);
    assert_eq!(r.comd1, CMD_WRITE_OPCODE | 1);
}

#[test]
fn construction_works_on_any_output_capable_pin_pair() {
    let mut parts = PinRegs::new().split_pins();
    let sda = parts.gpio21.into_open_drain_output(&mut parts.regs);
    let scl = parts.gpio22.into_open_drain_output(&mut parts.regs);
    let mut dport = DportRegs::new();
    let dev = I2c0 { block: I2cRegs::new() };
    let _i2c = I2C::new(dev, Pins { sda, scl }, &mut dport, &mut parts.regs);
    assert_eq!(parts.regs.gpio.func_out_sel[21], 30);
    assert_eq!(parts.regs.gpio.func_out_sel[22], 29);
    assert_eq!(parts.regs.gpio.func_in_sel[30], 21 | 128);
    assert_eq!(parts.regs.gpio.func_in_sel[29], 22 | 128);
}

#[test]
fn second_controller_runs_the_same_engine() {
    let mut parts = PinRegs::new().split_pins();
    let sda = parts.gpio25.into_open_drain_output(&mut parts.regs);
    let scl = parts.gpio26.into_open_drain_output(&mut parts.regs);
    let mut dport = DportRegs::new();
    let dev = I2c1 { block: I2cRegs::new() };
    let mut i2c = I2C::new(dev, Pins { sda, scl }, &mut dport, &mut parts.regs);
    i2c.write(0x50, &[0xDE, 0xAD]).unwrap();
    assert_eq!(i2c.registers().tx_fifo, vec![0xA0, 0xDE, 0xAD]);
}

#[test]
fn write_accepts_boundary_payload() {
    let (mut i2c, _dport, _pins) = build_bus();
    let payload = vec![0x5A; 254];
    let res = i2c.write(0x10, &payload);
    assert!(res.is_ok());
    let r = i2c.registers();
    assert_eq!(r.tx_fifo.len(), 255);
    assert_eq!(r.tx_fifo[0], 0x20);
    assert_eq!(r.comd1, CMD_WRITE_OPCODE | 255);
}

#[test]
fn write_rejects_oversized_payload_before_any_register_write() {
    let (mut i2c, _dport, _pins) = build_bus();
    let before = i2c.registers().clone();
    let payload = vec![0x5A; 255];
    let res = i2c.write(0x10, &payload);
    assert_eq!(res, Err(Error::PayloadTooLarge));
    assert_eq!(*i2c.registers(), before);
    assert_eq!(i2c.phase(), TxnPhase::Idle);
}

#[test]
fn completion_is_observed_in_command_slot_order() {
    let (mut i2c, _dport, _pins) = build_bus();
    i2c.write(0x21, &[1]).unwrap();

    // The engine first watches slot 0 (RSTART); a clear flag keeps it there.
    assert_eq!(i2c.poll_slot(), Some(0));
    assert!(!i2c.observe_done(false));
    assert_eq!(i2c.poll_slot(), Some(0));

    // RSTART done: only now does it watch slot 1 (WRITE).
    assert!(!i2c.observe_done(true));
    assert_eq!(i2c.poll_slot(), Some(1));
    assert!(!i2c.observe_done(false));
    assert_eq!(i2c.poll_slot(), Some(1));

    // WRITE done: only now does it watch slot 2 (STOP).
    assert!(!i2c.observe_done(true));
    assert_eq!(i2c.poll_slot(), Some(2));

    // STOP done: the transaction is complete.
    assert!(i2c.observe_done(true));
    assert_eq!(i2c.poll_slot(), None);
    assert_eq!(i2c.phase(), TxnPhase::Idle);
}

#[test]
fn consecutive_transactions_restage_cleanly() {
    let (mut i2c, _dport, _pins) = build_bus();
    i2c.write(0x21, &[1, 2, 3]).unwrap();
    i2c.observe_done(true);
    i2c.observe_done(true);
    i2c.observe_done(true);
    i2c.write(0x22, &[9]).unwrap();
    let r = i2c.registers();
    assert_eq!(r.tx_fifo, vec![0x44, 9]);
    assert_eq!(r.comd1, CMD_WRITE_OPCODE | 2);
}

#[test]
fn read_is_a_distinct_unimplemented_error() {
    let (mut i2c, _dport, _pins) = build_bus();
    let before = i2c.registers().clone();
    let mut buffer = vec![0u8; 4];
    assert_eq!(i2c.read(0x42, &mut buffer), Err(Error::NotImplemented));
    assert_eq!(buffer, vec![0u8; 4]);
    assert_eq!(*i2c.registers(), before);
}

#[test]
fn write_then_read_is_a_distinct_unimplemented_error() {
    let (mut i2c, _dport, _pins) = build_bus();
    let mut buffer = vec![0u8; 4];
    assert_eq!(
        i2c.write_then_read(0x42, &[1, 2], &mut buffer),
        Err(Error::NotImplemented)
    );
    assert_eq!(buffer, vec![0u8; 4]);
}

#[test]
fn reset_fifo_empties_staged_bytes() {
    let (mut i2c, _dport, _pins) = build_bus();
    i2c.write(0x42, &[1, 2, 3]).unwrap();
    assert_eq!(i2c.registers().tx_fifo.len(), 4);
    i2c.reset_fifo();
    assert!(i2c.registers().tx_fifo.is_empty());
}

#[test]
fn set_filter_none_disables_line_filter() {
    let (mut i2c, _dport, _pins) = build_bus();
    i2c.set_filter(None, Some(3));
    let r = i2c.registers();
    assert!(!r.sda_filter_en);
    assert!(r.scl_filter_en);
    assert_eq!(r.scl_filter_thres, 3);
    // The stale threshold survives a disable, as a register would.
    assert_eq!(r.sda_filter_thres, 7);
}

#[test]
fn set_frequency_rewrites_timing_registers() {
    let (mut i2c, _dport, _pins) = build_bus();
    i2c.set_frequency(100_000);
    let r = i2c.registers();
    assert_eq!(r.scl_low_period, 400);
    assert_eq!(r.scl_high_period, 400);
    assert_eq!(r.sda_hold, 200);
    assert_eq!(r.sda_sample, 200);
    assert_eq!(r.scl_rstart_setup, 400);
    assert_eq!(r.scl_stop_setup, 400);
    assert_eq!(r.scl_start_hold, 400);
    assert_eq!(r.scl_stop_hold, 400);
    assert_eq!(r.timeout, 8000);
}

#[test]
fn free_returns_the_controller_with_its_registers() {
    let (mut i2c, _dport, _pins) = build_bus();
    i2c.write(0x42, &[7]).unwrap();
    let staged = i2c.registers().clone();
    let dev = i2c.free();
    assert_eq!(dev.block, staged);
}
