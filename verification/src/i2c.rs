//! I2C master protocol engine.
//!
//! An [`I2C`] instance exclusively owns one controller's register file (via
//! [`Instance`]) and the two open-drain pin handles behind the bus. Its
//! construction binds the pins to the controller's fixed signal indices,
//! brings the controller out of reset, configures master mode, FIFO mode,
//! the line filters and the bus timing, and enables the clock output.
//!
//! A write transaction stages an RSTART command, the address byte and the
//! payload in the transmit FIFO, a WRITE command carrying the byte count,
//! and a STOP command, then sets the start strobe. Hardware then executes
//! the three command descriptors in slot order and raises one done flag
//! per slot; the engine consumes those observations strictly in slot
//! order through [`I2C::poll_slot`] and [`I2C::observe_done`]. The
//! embedding layer (or a test harness) supplies the done bits it reads;
//! nothing here busy-waits.

use vstd::prelude::*;
use crate::gpio::{Gpio, InputOutput, OpenDrain, iomux_gpio_word, spec_set_level};
use crate::matrix::{gpio_matrix_in, gpio_matrix_out, spec_matrix_in, spec_matrix_out};
use crate::regs::{
    DportRegs, GpioV, I2cRegs, I2cRegsV, IoMuxV, PinRegs, PinRegsV, DPORT_I2C0_BIT,
    GPIO_PIN_PAD_DRIVER, IOMUX_FUN_IE, IOMUX_FUN_WPD, IOMUX_FUN_WPU, IOMUX_FUNC_GPIO,
    IOMUX_MCU_OE, IOMUX_MCU_SEL_MASK, IOMUX_MCU_SEL_SHIFT,
};

verus! {

/// The peripheral (APB) clock frequency the bus timing is derived from.
pub const APB_CLK_FREQ_HZ: u32 = 80_000_000;

/// Default target bus frequency applied at construction.
pub const DEFAULT_BUS_FREQ_HZ: u32 = 200_000;

/// Output/input signal index of the first controller's SDA line.
pub const SIG_I2C_SDA: u32 = 30;

/// Output/input signal index of the first controller's SCL line.
pub const SIG_I2C_SCL: u32 = 29;

/// Command word of an RSTART descriptor.
pub const CMD_RSTART: u16 = 0;

/// Opcode bits of a WRITE descriptor; the low byte carries the count of
/// bytes to transmit.
pub const CMD_WRITE_OPCODE: u16 = 0b00_1100_0000_0000;

/// Command word of a STOP descriptor.
pub const CMD_STOP: u16 = 0b01_1000_0000_0000;

/// Mask of the controller's interrupt sources.
pub const INT_MASK: u32 = 0x3FFF;

/// Glitch filter threshold applied at construction, in peripheral-clock
/// cycles.
pub const DEFAULT_FILTER_THRESHOLD: u8 = 7;

/// Errors of the protocol engine.
///
/// `Transmit` and `Receive` are declared for bus-level failure (NACK,
/// arbitration loss, timeout), but the polled write path never raises
/// them: it has no failure detection, a known gap kept as such.
#[derive(Clone, Copy, Debug, PartialEq, Eq, Structural)]
pub enum Error {
    /// Bus-level transmit failure; declared, never raised by this engine.
    Transmit,
    /// Bus-level receive failure; declared, never raised by this engine.
    Receive,
    /// A write payload of 255 bytes or more: the descriptor's byte count
    /// is eight bits wide and one slot is reserved for the address byte.
    PayloadTooLarge,
    /// Read and write-then-read transactions are not implemented.
    NotImplemented,
}

/// Progress of a staged write transaction through its three command slots.
#[derive(Clone, Copy, Debug, PartialEq, Eq, Structural)]
pub enum TxnPhase {
    /// No transaction in flight.
    Idle,
    /// Waiting for command slot 0 (RSTART) to report done.
    AwaitRstart,
    /// Waiting for command slot 1 (WRITE) to report done.
    AwaitWrite,
    /// Waiting for command slot 2 (STOP) to report done.
    AwaitStop,
}

/// The command slot whose done flag the engine reads next.
pub open spec fn spec_awaited_slot(p: TxnPhase) -> Option<u8> {
    match p {
        TxnPhase::Idle => None,
        TxnPhase::AwaitRstart => Some(0u8),
        TxnPhase::AwaitWrite => Some(1u8),
        TxnPhase::AwaitStop => Some(2u8),
    }
}

/// How one observed done bit advances the transaction: a set flag moves to
/// the next slot (or completes), a clear flag leaves the phase unchanged.
pub open spec fn spec_advance(p: TxnPhase, done: bool) -> TxnPhase {
    if !done {
        p
    } else {
        match p {
            TxnPhase::Idle => TxnPhase::Idle,
            TxnPhase::AwaitRstart => TxnPhase::AwaitWrite,
            TxnPhase::AwaitWrite => TxnPhase::AwaitStop,
            TxnPhase::AwaitStop => TxnPhase::Idle,
        }
    }
}

/// One controller's register file, owned exclusively by whoever holds the
/// implementing value.
pub trait Instance: Sized {
    /// The register file's current contents.
    spec fn regs_spec(&self) -> I2cRegs;

    /// Read access to the register file.
    fn regs_ref(&self) -> (r: &I2cRegs)
        ensures
            *r == self.regs_spec(),
    ;

    /// Exclusive access to the register file.
    fn regs(&mut self) -> (r: &mut I2cRegs)
        ensures
            *r == old(self).regs_spec(),
            final(self).regs_spec() == *final(r),
    ;
}

/// The first I2C controller.
pub struct I2c0 {
    pub block: I2cRegs,
}

impl Instance for I2c0 {
    open spec fn regs_spec(&self) -> I2cRegs {
        self.block
    }

    fn regs_ref(&self) -> (r: &I2cRegs) {
        &self.block
    }

    fn regs(&mut self) -> (r: &mut I2cRegs) {
        &mut self.block
    }
}

/// The second I2C controller.
pub struct I2c1 {
    pub block: I2cRegs,
}

impl Instance for I2c1 {
    open spec fn regs_spec(&self) -> I2cRegs {
        self.block
    }

    fn regs_ref(&self) -> (r: &I2cRegs) {
        &self.block
    }

    fn regs(&mut self) -> (r: &mut I2cRegs) {
        &mut self.block
    }
}

/// The pin pair behind the bus. Both pins must already be in open-drain
/// output-plus-input capability; any two pins may be used.
pub struct Pins {
    pub sda: Gpio<InputOutput<OpenDrain>>,
    pub scl: Gpio<InputOutput<OpenDrain>>,
}

/// IO-mux word of a bus pad: GPIO function selected, pull-down off,
/// pull-up on, input buffer on, output kept enabled in sleep.
pub open spec fn i2c_pad_word(w: u32) -> u32 {
    (((iomux_gpio_word(w) & !IOMUX_FUN_WPD) | IOMUX_FUN_WPU) | IOMUX_FUN_IE) | IOMUX_MCU_OE
}

/// Effect of binding one bus pad: the line driven high as the idle level,
/// the pad switched to open drain, its IO-mux word rewritten, and the
/// matrix routing the pad to and from the controller's signal.
pub open spec fn spec_attach_pin(v: PinRegsV, p: u8, sig: u32) -> PinRegsV {
    let v1 = spec_set_level(v, p, true);
    let v2 = PinRegsV {
        gpio: GpioV {
            pin_cfg: v1.gpio.pin_cfg.update(p as int, GPIO_PIN_PAD_DRIVER),
            ..v1.gpio
        },
        ..v1
    };
    let v3 = PinRegsV {
        iomux: IoMuxV {
            pins: v2.iomux.pins.update(p as int, i2c_pad_word(v.iomux.pins[p as int])),
        },
        ..v2
    };
    let v4 = PinRegsV { gpio: spec_matrix_out(v3.gpio, p as u32, sig, false, false), ..v3 };
    PinRegsV { gpio: spec_matrix_in(v4.gpio, p as u32, sig, false), ..v4 }
}

/// Binds one bus pad to a controller signal, as [`spec_attach_pin`] says.
fn attach_pin(pin: &Gpio<InputOutput<OpenDrain>>, sig: u32, pr: &mut PinRegs)
    requires
        old(pr).wf(),
        pin.wf(),
        sig < 256,
    ensures
        final(pr)@ == spec_attach_pin(old(pr)@, pin.id_spec(), sig),
        final(pr).wf(),
{
    pin.set_high(pr);
    let p: u8 = pin.id();
    pr.gpio.pin_cfg[p as usize] = GPIO_PIN_PAD_DRIVER;
    let w: u32 = pr.iomux.pins[p as usize];
    let w1: u32 = ((((w & !IOMUX_MCU_SEL_MASK) | (IOMUX_FUNC_GPIO << IOMUX_MCU_SEL_SHIFT))
        & !IOMUX_FUN_WPD) | IOMUX_FUN_WPU);
    let w2: u32 = (w1 | IOMUX_FUN_IE) | IOMUX_MCU_OE;
    pr.iomux.pins[p as usize] = w2;
    gpio_matrix_out(&mut pr.gpio, p as u32, sig, false, false);
    gpio_matrix_in(&mut pr.gpio, p as u32, sig, false);
    proof {
        assert(pr@ =~~= spec_attach_pin(old(pr)@, pin.id_spec(), sig));
    }
}

/// Setting a bit and then clearing it leaves the bit clear and every other
/// bit as it was.
proof fn lemma_set_then_clear(x: u32, b: u32)
    by (bit_vector)
    ensures
        (x | b) & !b == x & !b,
{
}

/// Clearing a bit twice clears it once.
proof fn lemma_clear_twice(x: u32, b: u32)
    by (bit_vector)
    ensures
        (x & !b) & !b == x & !b,
{
}

/// The register file of a controller that has staged an addressed write
/// transaction over its previous state: FIFOs reset, RSTART in slot 0, the
/// address byte (shifted left, direction bit clear) and the payload in the
/// transmit FIFO, the WRITE descriptor with the total byte count in slot 1,
/// STOP in slot 2, every done flag clear, and the start strobe set.
pub open spec fn spec_stage_write(v: I2cRegsV, addr: u8, bytes: Seq<u8>) -> I2cRegsV {
    I2cRegsV {
        tx_fifo_rst: false,
        rx_fifo_rst: false,
        comd0: CMD_RSTART,
        comd0_done: false,
        comd1: CMD_WRITE_OPCODE | ((bytes.len() + 1) as u16),
        comd1_done: false,
        comd2: CMD_STOP,
        comd2_done: false,
        trans_start: true,
        tx_fifo: seq![(2 * addr) as u8] + bytes,
        ..v
    }
}

/// Pushes every payload byte into the transmit FIFO, in order.
#[verifier::loop_isolation(false)]
fn fifo_fill(v: &mut Vec<u8>, bytes: &[u8])
    ensures
        final(v)@ == old(v)@ + bytes@,
{
    proof {
        assert(v@ =~= old(v)@ + bytes@.subrange(0, 0));
    }
    let mut i: usize = 0;
    while i < bytes.len()
        invariant
            i <= bytes@.len(),
            v@ == old(v)@ + bytes@.subrange(0, i as int),
        decreases bytes@.len() - i,
    {
        let b: u8 = bytes[i];
        v.push(b);
        i = i + 1;
        proof {
            assert(v@ =~= old(v)@ + bytes@.subrange(0, i as int));
        }
    }
    proof {
        assert(old(v)@ + bytes@.subrange(0, bytes@.len() as int) =~= old(v)@ + bytes@);
    }
}

/// Performs every register write of an addressed write transaction on the
/// controller's register file, as [`spec_stage_write`] says.
#[verifier::rlimit(60)]
fn stage_write(r: &mut I2cRegs, addr: u8, bytes: &[u8])
    requires
        addr < 128,
        bytes@.len() <= 254,
    ensures
        final(r)@ == spec_stage_write(old(r)@, addr, bytes@),
{
    r.tx_fifo_rst = true;
    r.tx_fifo_rst = false;
    r.tx_fifo.clear();
    r.rx_fifo_rst = true;
    r.rx_fifo_rst = false;
    r.comd0 = CMD_RSTART;
    r.comd0_done = false;
    let head: u8 = addr << 1u8;
    proof {
        assert(addr << 1u8 == (2 * addr) as u8) by (bit_vector)
            requires
                addr < 128,
        ;
    }
    r.tx_fifo.push(head);
    fifo_fill(&mut r.tx_fifo, bytes);
    let count: u8 = 1 + (bytes.len() as u8);
    r.comd1 = CMD_WRITE_OPCODE | (count as u16);
    r.comd1_done = false;
    r.comd2 = CMD_STOP;
    r.comd2_done = false;
    r.trans_start = true;
    proof {
        assert(count as u16 == (bytes@.len() + 1) as u16);
        assert(Seq::empty().push((2 * addr) as u8) + bytes@ =~= seq![(2 * addr) as u8] + bytes@);
        assert(r@ =~= spec_stage_write(old(r)@, addr, bytes@));
    }
}

/// An I2C master: one controller, the two pins bound to it, and the
/// progress of the transaction in flight.
pub struct I2C<T> {
    dev: T,
    pins: Pins,
    phase: TxnPhase,
}

impl<T: Instance> I2C<T> {
    /// The owned controller's register file.
    pub closed spec fn regs_of(&self) -> I2cRegs {
        self.dev.regs_spec()
    }

    /// The progress of the transaction in flight.
    pub closed spec fn phase_of(&self) -> TxnPhase {
        self.phase
    }

    /// The pin pair the bus owns.
    pub closed spec fn pins_of(&self) -> Pins {
        self.pins
    }

    /// The pin pair the bus owns. Holding the handles here keeps anyone
    /// else from reconfiguring the pads while the bus lives.
    pub fn pins(&self) -> (p: &Pins)
        ensures
            *p == self.pins_of(),
    {
        &self.pins
    }

    /// The progress of the transaction in flight.
    pub fn phase(&self) -> (p: TxnPhase)
        ensures
            p == self.phase_of(),
    {
        self.phase
    }

    /// Read access to the owned controller's register file.
    pub fn registers(&self) -> (r: &I2cRegs)
        ensures
            *r == self.regs_of(),
    {
        self.dev.regs_ref()
    }

    /// Pulses the controller's reset-enable bit in the DPORT block.
    pub fn reset(&mut self, dport: &mut DportRegs)
        ensures
            *final(self) == *old(self),
            final(dport).perip_rst_en == old(dport).perip_rst_en & !DPORT_I2C0_BIT,
            final(dport).perip_clk_en == old(dport).perip_clk_en,
    {
        dport.perip_rst_en = dport.perip_rst_en | DPORT_I2C0_BIT;
        dport.perip_rst_en = dport.perip_rst_en & !DPORT_I2C0_BIT;
        proof {
            lemma_set_then_clear(old(dport).perip_rst_en, DPORT_I2C0_BIT);
        }
    }

    /// Enables the controller's clock and releases its reset in the DPORT
    /// block.
    pub fn enable(&mut self, dport: &mut DportRegs)
        ensures
            *final(self) == *old(self),
            final(dport).perip_clk_en == old(dport).perip_clk_en | DPORT_I2C0_BIT,
            final(dport).perip_rst_en == old(dport).perip_rst_en & !DPORT_I2C0_BIT,
    {
        dport.perip_clk_en = dport.perip_clk_en | DPORT_I2C0_BIT;
        dport.perip_rst_en = dport.perip_rst_en & !DPORT_I2C0_BIT;
    }

    /// Pulses both FIFO reset strobes, emptying the staged transmit bytes.
    pub fn reset_fifo(&mut self)
        ensures
            final(self).phase_of() == old(self).phase_of(),
            final(self).pins_of() == old(self).pins_of(),
            final(self).regs_of()@ == (I2cRegsV {
                tx_fifo_rst: false,
                rx_fifo_rst: false,
                tx_fifo: Seq::empty(),
                ..old(self).regs_of()@
            }),
    {
        let r = self.dev.regs();
        r.tx_fifo_rst = true;
        r.tx_fifo_rst = false;
        r.tx_fifo.clear();
        r.rx_fifo_rst = true;
        r.rx_fifo_rst = false;
        proof {
            assert(self.dev.regs_spec()@ =~= (I2cRegsV {
                tx_fifo_rst: false,
                rx_fifo_rst: false,
                tx_fifo: Seq::empty(),
                ..old(self).regs_of()@
            }));
        }
    }

    /// Configures the digital noise filters: a threshold of `n` cycles
    /// enables a line's filter, `None` disables it.
    #[verifier::rlimit(50)]
    pub fn set_filter(&mut self, sda_threshold: Option<u8>, scl_threshold: Option<u8>)
        ensures
            final(self).phase_of() == old(self).phase_of(),
            final(self).pins_of() == old(self).pins_of(),
            final(self).regs_of()@ == (I2cRegsV {
                sda_filter_thres: match sda_threshold {
                    Some(t) => t,
                    None => old(self).regs_of()@.sda_filter_thres,
                },
                sda_filter_en: sda_threshold is Some,
                scl_filter_thres: match scl_threshold {
                    Some(t) => t,
                    None => old(self).regs_of()@.scl_filter_thres,
                },
                scl_filter_en: scl_threshold is Some,
                ..old(self).regs_of()@
            }),
    {
        let r = self.dev.regs();
        match sda_threshold {
            Some(threshold) => {
                r.sda_filter_thres = threshold;
                r.sda_filter_en = true;
            },
            None => {
                r.sda_filter_en = false;
            },
        }
        match scl_threshold {
            Some(threshold) => {
                r.scl_filter_thres = threshold;
                r.scl_filter_en = true;
            },
            None => {
                r.scl_filter_en = false;
            },
        }
        proof {
            assert(self.dev.regs_spec()@ =~= (I2cRegsV {
                sda_filter_thres: match sda_threshold {
                    Some(t) => t,
                    None => old(self).regs_of()@.sda_filter_thres,
                },
                sda_filter_en: sda_threshold is Some,
                scl_filter_thres: match scl_threshold {
                    Some(t) => t,
                    None => old(self).regs_of()@.scl_filter_thres,
                },
                scl_filter_en: scl_threshold is Some,
                ..old(self).regs_of()@
            }));
        }
    }

    /// Derives the bus timing for the target frequency from the peripheral
    /// clock and writes all timing registers.
    #[verifier::rlimit(50)]
    pub fn set_frequency(&mut self, freq: u32)
        requires
            1 <= freq,
            APB_CLK_FREQ_HZ / freq / 2 * 20 <= u16::MAX,
        ensures
            final(self).phase_of() == old(self).phase_of(),
            final(self).pins_of() == old(self).pins_of(),
            final(self).regs_of()@ == (I2cRegsV {
                scl_low_period: (APB_CLK_FREQ_HZ / freq / 2) as u16,
                scl_high_period: (APB_CLK_FREQ_HZ / freq / 2) as u16,
                sda_hold: (APB_CLK_FREQ_HZ / freq / 2 / 2) as u16,
                sda_sample: (APB_CLK_FREQ_HZ / freq / 2 / 2) as u16,
                scl_rstart_setup: (APB_CLK_FREQ_HZ / freq / 2) as u16,
                scl_stop_setup: (APB_CLK_FREQ_HZ / freq / 2) as u16,
                scl_start_hold: (APB_CLK_FREQ_HZ / freq / 2) as u16,
                scl_stop_hold: (APB_CLK_FREQ_HZ / freq / 2) as u16,
                timeout: (APB_CLK_FREQ_HZ / freq / 2 * 20) as u32,
                ..old(self).regs_of()@
            }),
    {
        let t = bus_timing(APB_CLK_FREQ_HZ, freq);
        let r = self.dev.regs();
        r.scl_low_period = t.scl_low;
        r.scl_high_period = t.scl_high;
        r.sda_hold = t.sda_hold;
        r.sda_sample = t.sda_sample;
        r.scl_rstart_setup = t.setup;
        r.scl_stop_setup = t.setup;
        r.scl_start_hold = t.hold;
        r.scl_stop_hold = t.hold;
        r.timeout = t.timeout as u32;
        proof {
            assert(self.dev.regs_spec()@ =~= (I2cRegsV {
                scl_low_period: (APB_CLK_FREQ_HZ / freq / 2) as u16,
                scl_high_period: (APB_CLK_FREQ_HZ / freq / 2) as u16,
                sda_hold: (APB_CLK_FREQ_HZ / freq / 2 / 2) as u16,
                sda_sample: (APB_CLK_FREQ_HZ / freq / 2 / 2) as u16,
                scl_rstart_setup: (APB_CLK_FREQ_HZ / freq / 2) as u16,
                scl_stop_setup: (APB_CLK_FREQ_HZ / freq / 2) as u16,
                scl_start_hold: (APB_CLK_FREQ_HZ / freq / 2) as u16,
                scl_stop_hold: (APB_CLK_FREQ_HZ / freq / 2) as u16,
                timeout: (APB_CLK_FREQ_HZ / freq / 2 * 20) as u32,
                ..old(self).regs_of()@
            }));
        }
    }

    /// Creates and fully configures a master on the given controller and
    /// pin pair: binds the pins to the controller's signals with the lines
    /// driven high as the idle level, pulses the controller's reset and
    /// enables its clock in the DPORT block, disables and clears all
    /// interrupt sources, selects master mode with actively driven lines
    /// and MSB-first data, switches to FIFO mode and resets both FIFOs,
    /// enables the line filters, writes the default bus timing, and
    /// enables the clock output.
    #[verifier::rlimit(80)]
    pub fn new(dev: T, pins: Pins, dport: &mut DportRegs, pr: &mut PinRegs) -> (i2c: I2C<T>)
        requires
            old(pr).wf(),
            pins.sda.wf(),
            pins.scl.wf(),
        ensures
            i2c.phase_of() == TxnPhase::Idle,
            i2c.pins_of() == pins,
            final(pr)@ == spec_attach_pin(
                spec_attach_pin(old(pr)@, pins.sda.id_spec(), SIG_I2C_SDA),
                pins.scl.id_spec(),
                SIG_I2C_SCL,
            ),
            final(pr).wf(),
            final(dport).perip_clk_en == old(dport).perip_clk_en | DPORT_I2C0_BIT,
            final(dport).perip_rst_en == old(dport).perip_rst_en & !DPORT_I2C0_BIT,
            i2c.regs_of()@ == (I2cRegsV {
                int_ena: 0,
                int_st: dev.regs_spec()@.int_st & !INT_MASK,
                sda_force_out: true,
                scl_force_out: true,
                sample_scl_level: false,
                ms_mode: true,
                trans_start: false,
                tx_lsb_first: false,
                rx_lsb_first: false,
                clk_en: true,
                nonfifo_en: false,
                tx_fifo_rst: false,
                rx_fifo_rst: false,
                tx_fifo: Seq::empty(),
                sda_filter_thres: DEFAULT_FILTER_THRESHOLD,
                sda_filter_en: true,
                scl_filter_thres: DEFAULT_FILTER_THRESHOLD,
                scl_filter_en: true,
                scl_low_period: 200,
                scl_high_period: 200,
                sda_hold: 100,
                sda_sample: 100,
                scl_rstart_setup: 200,
                scl_stop_setup: 200,
                scl_start_hold: 200,
                scl_stop_hold: 200,
                timeout: 4000,
                ..dev.regs_spec()@
            }),
    {
        attach_pin(&pins.sda, SIG_I2C_SDA, pr);
        attach_pin(&pins.scl, SIG_I2C_SCL, pr);
        let mut i2c = I2C { dev, pins, phase: TxnPhase::Idle };
        i2c.reset(dport);
        i2c.enable(dport);
        let r = i2c.dev.regs();
        r.int_ena = 0;
        r.int_st = r.int_st & !INT_MASK;
        r.sda_force_out = true;
        r.scl_force_out = true;
        r.sample_scl_level = false;
        r.ms_mode = true;
        r.trans_start = false;
        r.tx_lsb_first = false;
        r.rx_lsb_first = false;
        r.clk_en = false;
        r.nonfifo_en = false;
        i2c.reset_fifo();
        i2c.set_filter(Some(DEFAULT_FILTER_THRESHOLD), Some(DEFAULT_FILTER_THRESHOLD));
        i2c.set_frequency(DEFAULT_BUS_FREQ_HZ);
        let r2 = i2c.dev.regs();
        r2.clk_en = true;
        proof {
            lemma_clear_twice(old(dport).perip_rst_en, DPORT_I2C0_BIT);
            assert(i2c.dev.regs_spec()@ =~= (I2cRegsV {
                int_ena: 0,
                int_st: dev.regs_spec()@.int_st & !INT_MASK,
                sda_force_out: true,
                scl_force_out: true,
                sample_scl_level: false,
                ms_mode: true,
                trans_start: false,
                tx_lsb_first: false,
                rx_lsb_first: false,
                clk_en: true,
                nonfifo_en: false,
                tx_fifo_rst: false,
                rx_fifo_rst: false,
                tx_fifo: Seq::empty(),
                sda_filter_thres: DEFAULT_FILTER_THRESHOLD,
                sda_filter_en: true,
                scl_filter_thres: DEFAULT_FILTER_THRESHOLD,
                scl_filter_en: true,
                scl_low_period: 200,
                scl_high_period: 200,
                sda_hold: 100,
                sda_sample: 100,
                scl_rstart_setup: 200,
                scl_stop_setup: 200,
                scl_start_hold: 200,
                scl_stop_hold: 200,
                timeout: 4000,
                ..dev.regs_spec()@
            }));
        }
        i2c
    }

    /// Performs every register write of an addressed write transaction:
    /// resets the FIFOs, stages an RSTART descriptor in slot 0, pushes the
    /// address byte (shifted left with the direction bit clear) and the
    /// payload into the transmit FIFO, stages the WRITE descriptor with
    /// the total byte count in slot 1 and the STOP descriptor in slot 2,
    /// and sets the start strobe. A payload of 255 bytes or more is
    /// rejected before any register is touched. On success the engine
    /// awaits the three done flags, which the caller feeds it through
    /// [`Self::poll_slot`] and [`Self::observe_done`].
    pub fn write(&mut self, addr: u8, bytes: &[u8]) -> (res: Result<(), Error>)
        requires
            old(self).phase_of() == TxnPhase::Idle,
            addr < 128,
        ensures
            bytes@.len() > 254 ==> res == Err::<(), Error>(Error::PayloadTooLarge) && *final(self)
                == *old(self),
            final(self).pins_of() == old(self).pins_of(),
            bytes@.len() <= 254 ==> res == Ok::<(), Error>(()) && final(self).phase_of()
                == TxnPhase::AwaitRstart && final(self).regs_of()@ == spec_stage_write(
                old(self).regs_of()@,
                addr,
                bytes@,
            ),
    {
        if bytes.len() >= 255 {
            return Err(Error::PayloadTooLarge);
        }
        let r = self.dev.regs();
        stage_write(r, addr, bytes);
        self.phase = TxnPhase::AwaitRstart;
        Ok(())
    }

    /// The command slot whose done flag should be read next, or `None`
    /// when no transaction is in flight.
    pub fn poll_slot(&self) -> (slot: Option<u8>)
        ensures
            slot == spec_awaited_slot(self.phase_of()),
    {
        match self.phase {
            TxnPhase::Idle => None,
            TxnPhase::AwaitRstart => Some(0),
            TxnPhase::AwaitWrite => Some(1),
            TxnPhase::AwaitStop => Some(2),
        }
    }

    /// Consumes one observation of the awaited slot's done flag: a set
    /// flag advances to the next slot, in strict RSTART, WRITE, STOP
    /// order, and completes the transaction after STOP; a clear flag
    /// changes nothing, as the unbounded hardware poll would simply read
    /// again. Returns whether the transaction is complete.
    pub fn observe_done(&mut self, done: bool) -> (complete: bool)
        ensures
            final(self).regs_of() == old(self).regs_of(),
            final(self).pins_of() == old(self).pins_of(),
            final(self).phase_of() == spec_advance(old(self).phase_of(), done),
            complete == (spec_advance(old(self).phase_of(), done) is Idle),
    {
        if done {
            self.phase = match self.phase {
                TxnPhase::Idle => TxnPhase::Idle,
                TxnPhase::AwaitRstart => TxnPhase::AwaitWrite,
                TxnPhase::AwaitWrite => TxnPhase::AwaitStop,
                TxnPhase::AwaitStop => TxnPhase::Idle,
            };
        }
        match self.phase {
            TxnPhase::Idle => true,
            _ => false,
        }
    }

    /// Read transactions are not implemented: this signals that
    /// distinctly and leaves the engine and the buffer untouched.
    pub fn read(&mut self, _addr: u8, _buffer: &mut Vec<u8>) -> (res: Result<(), Error>)
        ensures
            res == Err::<(), Error>(Error::NotImplemented),
            *final(self) == *old(self),
            *final(_buffer) == *old(_buffer),
    {
        Err(Error::NotImplemented)
    }

    /// Write-then-read transactions are not implemented: this signals
    /// that distinctly and leaves the engine and the buffer untouched.
    pub fn write_then_read(&mut self, _addr: u8, _bytes: &[u8], _buffer: &mut Vec<u8>) -> (res:
        Result<(), Error>)
        ensures
            res == Err::<(), Error>(Error::NotImplemented),
            *final(self) == *old(self),
            *final(_buffer) == *old(_buffer),
    {
        Err(Error::NotImplemented)
    }

    /// Releases the controller, dropping the pin bindings.
    pub fn free(self) -> (dev: T)
        ensures
            dev.regs_spec() == self.regs_of(),
    {
        self.dev
    }
}

/// Rank of a phase in the slot order: how many done flags a staged
/// transaction has consumed to reach it.
pub open spec fn spec_phase_rank(p: TxnPhase) -> int {
    match p {
        TxnPhase::AwaitRstart => 0,
        TxnPhase::AwaitWrite => 1,
        TxnPhase::AwaitStop => 2,
        TxnPhase::Idle => 3,
    }
}

/// The phase a freshly staged transaction reaches after consuming a
/// sequence of done-flag observations, oldest first.
pub open spec fn spec_run_poll(obs: Seq<bool>) -> TxnPhase
    decreases obs.len(),
{
    if obs.len() == 0 {
        TxnPhase::AwaitRstart
    } else {
        spec_advance(spec_run_poll(obs.drop_last()), obs.last())
    }
}

/// The number of set flags among a sequence of observations.
pub open spec fn spec_count_done(obs: Seq<bool>) -> int
    decreases obs.len(),
{
    if obs.len() == 0 {
        0
    } else {
        spec_count_done(obs.drop_last()) + (if obs.last() {
            1int
        } else {
            0int
        })
    }
}

/// Command descriptors complete in strict slot order. After any sequence
/// of observations, the slot a staged transaction awaits equals the number
/// of done flags it has seen, capped at completion: the engine polls the
/// WRITE slot only once the RSTART slot reported done, and the STOP slot
/// only once the WRITE slot did.
pub proof fn lemma_poll_slot_order(obs: Seq<bool>)
    ensures
        spec_phase_rank(spec_run_poll(obs)) == if spec_count_done(obs) < 3 {
            spec_count_done(obs)
        } else {
            3int
        },
    decreases obs.len(),
{
    if obs.len() == 0 {
    } else {
        lemma_poll_slot_order(obs.drop_last());
    }
}

/// Bus timing parameters, in peripheral-clock cycles, as they are written
/// into the controller's timing registers.
pub struct BusTiming {
    pub scl_low: u16,
    pub scl_high: u16,
    pub sda_hold: u16,
    pub sda_sample: u16,
    pub setup: u16,
    pub hold: u16,
    pub timeout: u16,
}

/// Derives the bus timing for a target bus frequency from the peripheral
/// clock frequency. Both the SCL low and high phases last half a bus cycle;
/// the data hold and sample points sit in the middle of those phases; the
/// start/stop setup and hold windows last half a cycle; the bus timeout is
/// twenty half-cycles.
pub fn bus_timing(source_clk: u32, freq: u32) -> (t: BusTiming)
    requires
        1 <= freq,
        source_clk / freq / 2 * 20 <= u16::MAX,
    ensures
        t.scl_low == source_clk / freq / 2,
        t.scl_high == source_clk / freq / 2,
        t.sda_hold == source_clk / freq / 2 / 2,
        t.sda_sample == source_clk / freq / 2 / 2,
        t.setup == source_clk / freq / 2,
        t.hold == source_clk / freq / 2,
        t.timeout == source_clk / freq / 2 * 20,
{
    let half_cycle: u32 = source_clk / freq / 2;
    let scl_low: u16 = half_cycle as u16;
    let scl_high: u16 = scl_low;
    let sda_hold: u16 = scl_low / 2;
    let sda_sample: u16 = scl_high / 2;
    let setup: u16 = scl_low;
    let hold: u16 = scl_low;
    let timeout: u16 = (half_cycle * 20) as u16;
    BusTiming { scl_low, scl_high, sda_hold, sda_sample, setup, hold, timeout }
}

} // verus!
