//! Models of the memory-mapped register blocks that the pin multiplexer and
//! the I2C master touch: the GPIO matrix block, the per-pad IO-mux block, the
//! low-power RTC-IO domain, the DPORT peripheral clock/reset block, and one
//! I2C controller's register file.
//!
//! Each block is an owned value holding the registers' contents; a view
//! (`GpioV` and friends) gives the mathematical abstraction that contracts
//! are stated over. Committing a block to the physical address space, and
//! refreshing hardware-driven registers from it, is the embedding layer's
//! business, not this crate's.

use vstd::prelude::*;

verus! {

/// Pad-driver (open-drain) enable bit inside a `GPIO_PINn` register.
pub const GPIO_PIN_PAD_DRIVER: u32 = 0x4;

/// IO-mux word: output enable of the pad in sleep mode (bit 0).
pub const IOMUX_MCU_OE: u32 = 0x1;
/// IO-mux word: pull-down enable of the pad (bit 7).
pub const IOMUX_FUN_WPD: u32 = 0x80;
/// IO-mux word: pull-up enable of the pad (bit 8).
pub const IOMUX_FUN_WPU: u32 = 0x100;
/// IO-mux word: input enable of the pad (bit 9).
pub const IOMUX_FUN_IE: u32 = 0x200;
/// IO-mux word: mask of the three-bit multiplexer function select (bits 12:14).
pub const IOMUX_MCU_SEL_MASK: u32 = 0x7000;
/// Shift of the multiplexer function select field.
pub const IOMUX_MCU_SEL_SHIFT: u32 = 12;
/// Multiplexer function that routes the pad through the GPIO matrix.
pub const IOMUX_FUNC_GPIO: u32 = 2;

/// DPORT peripheral clock-enable / reset-enable bit of the first I2C
/// controller (bit 7 of `PERIP_CLK_EN` and `PERIP_RST_EN`).
pub const DPORT_I2C0_BIT: u32 = 0x80;

/// Abstraction of [`GpioRegs`].
#[verifier::ext_equal]
pub struct GpioV {
    pub out: u32,
    pub out1: u32,
    pub enable: u32,
    pub enable1: u32,
    pub in_: u32,
    pub in1: u32,
    pub pin_cfg: Seq<u32>,
    pub func_out_sel: Seq<u32>,
    pub func_in_sel: Seq<u32>,
}

/// The GPIO matrix block: output level, output enable and sampled input
/// level for both pin banks, the per-pin pad configuration words, the
/// per-pin output-signal-select table and the per-signal input-select table.
#[derive(Clone, Debug, PartialEq)]
pub struct GpioRegs {
    /// Output level of pins 0..=31.
    pub out: u32,
    /// Output level of pins 32..=39 (bits 0..=7).
    pub out1: u32,
    /// Output enable of pins 0..=31.
    pub enable: u32,
    /// Output enable of pins 32..=39 (bits 0..=7).
    pub enable1: u32,
    /// Sampled input level of pins 0..=31.
    pub in_: u32,
    /// Sampled input level of pins 32..=39 (bits 0..=7).
    pub in1: u32,
    /// Per-pin `GPIO_PINn` configuration words (pad driver bit and friends).
    pub pin_cfg: Vec<u32>,
    /// Per-pin output-signal-select words, one per GPIO index.
    pub func_out_sel: Vec<u32>,
    /// Per-signal input-select words, one per logical signal index.
    pub func_in_sel: Vec<u32>,
}

impl View for GpioRegs {
    type V = GpioV;

    open spec fn view(&self) -> GpioV {
        GpioV {
            out: self.out,
            out1: self.out1,
            enable: self.enable,
            enable1: self.enable1,
            in_: self.in_,
            in1: self.in1,
            pin_cfg: self.pin_cfg@,
            func_out_sel: self.func_out_sel@,
            func_in_sel: self.func_in_sel@,
        }
    }
}

impl GpioV {
    /// The tables have their architecture-fixed sizes: 40 pad slots and 256
    /// signal slots.
    pub open spec fn wf(&self) -> bool {
        &&& self.pin_cfg.len() == 40
        &&& self.func_out_sel.len() == 40
        &&& self.func_in_sel.len() == 256
    }
}

impl GpioRegs {
    pub open spec fn wf(&self) -> bool {
        self@.wf()
    }

    /// The block as it stands after power-on reset: all registers zero.
    pub fn new() -> (r: GpioRegs)
        ensures
            r.wf(),
            r.out == 0,
            r.out1 == 0,
            r.enable == 0,
            r.enable1 == 0,
            r.in_ == 0,
            r.in1 == 0,
            forall|i: int| 0 <= i < 40 ==> r@.pin_cfg[i] == 0,
            forall|i: int| 0 <= i < 40 ==> r@.func_out_sel[i] == 0,
            forall|i: int| 0 <= i < 256 ==> r@.func_in_sel[i] == 0,
    {
        GpioRegs {
            out: 0,
            out1: 0,
            enable: 0,
            enable1: 0,
            in_: 0,
            in1: 0,
            pin_cfg: zero_words(40),
            func_out_sel: zero_words(40),
            func_in_sel: zero_words(256),
        }
    }
}

/// Abstraction of [`IoMuxRegs`].
#[verifier::ext_equal]
pub struct IoMuxV {
    pub pins: Seq<u32>,
}

/// The IO-mux block: one multiplexer configuration word per pad.
#[derive(Clone, Debug, PartialEq)]
pub struct IoMuxRegs {
    /// Per-pin IO-mux words, indexed by GPIO number.
    pub pins: Vec<u32>,
}

impl View for IoMuxRegs {
    type V = IoMuxV;

    open spec fn view(&self) -> IoMuxV {
        IoMuxV { pins: self.pins@ }
    }
}

impl IoMuxV {
    pub open spec fn wf(&self) -> bool {
        self.pins.len() == 40
    }
}

impl IoMuxRegs {
    pub open spec fn wf(&self) -> bool {
        self@.wf()
    }

    pub fn new() -> (r: IoMuxRegs)
        ensures
            r.wf(),
            forall|i: int| 0 <= i < 40 ==> r@.pins[i] == 0,
    {
        IoMuxRegs { pins: zero_words(40) }
    }
}

/// One pad's slice of the RTC-IO (analog/low-power) domain: the routing
/// multiplexer, function select, digital input buffer enable, and the
/// RTC-domain pull resistor enables, where present.
#[derive(Clone, Copy, Debug, PartialEq, Eq, Structural)]
pub struct RtcChannel {
    /// Routes the pad to the RTC/analog module instead of the digital GPIO.
    pub mux_sel: bool,
    /// RTC function select for the pad.
    pub fun_sel: u8,
    /// Input buffer enable in the RTC domain.
    pub fun_ie: bool,
    /// RTC-domain pull-up enable.
    pub rue: bool,
    /// RTC-domain pull-down enable.
    pub rde: bool,
    /// Open-drain configuration of the RTC pad.
    pub pad_driver: bool,
}

/// Abstraction of [`RtcioRegs`].
#[verifier::ext_equal]
pub struct RtcioV {
    pub channels: Seq<RtcChannel>,
    pub enable: u32,
}

/// The RTC-IO block: one channel per analog-capable pad, plus the RTC-domain
/// output enable bits.
#[derive(Clone, Debug, PartialEq)]
pub struct RtcioRegs {
    /// Per-channel configuration, indexed by RTC channel number.
    pub channels: Vec<RtcChannel>,
    /// RTC-domain GPIO output enable, one bit per channel.
    pub enable: u32,
}

impl View for RtcioRegs {
    type V = RtcioV;

    open spec fn view(&self) -> RtcioV {
        RtcioV { channels: self.channels@, enable: self.enable }
    }
}

impl RtcioV {
    pub open spec fn wf(&self) -> bool {
        self.channels.len() == 18
    }
}

impl RtcioRegs {
    pub open spec fn wf(&self) -> bool {
        self@.wf()
    }

    pub fn new() -> (r: RtcioRegs)
        ensures
            r.wf(),
            r.enable == 0,
            forall|i: int| 0 <= i < 18 ==> r@.channels[i] == (RtcChannel {
                mux_sel: false,
                fun_sel: 0,
                fun_ie: false,
                rue: false,
                rde: false,
                pad_driver: false,
            }),
    {
        let mut channels: Vec<RtcChannel> = Vec::new();
        let mut i: usize = 0;
        while i < 18
            invariant
                i <= 18,
                channels.len() == i,
                forall|j: int| 0 <= j < i ==> channels@[j] == (RtcChannel {
                    mux_sel: false,
                    fun_sel: 0,
                    fun_ie: false,
                    rue: false,
                    rde: false,
                    pad_driver: false,
                }),
            decreases 18 - i,
        {
            channels.push(RtcChannel {
                mux_sel: false,
                fun_sel: 0,
                fun_ie: false,
                rue: false,
                rde: false,
                pad_driver: false,
            });
            i = i + 1;
        }
        RtcioRegs { channels, enable: 0 }
    }
}

/// Abstraction of [`PinRegs`].
#[verifier::ext_equal]
pub struct PinRegsV {
    pub gpio: GpioV,
    pub iomux: IoMuxV,
    pub rtcio: RtcioV,
}

/// The three register blocks a pin mode transition touches, bundled so that
/// one mutable borrow covers a whole recipe.
#[derive(Clone, Debug, PartialEq)]
pub struct PinRegs {
    pub gpio: GpioRegs,
    pub iomux: IoMuxRegs,
    pub rtcio: RtcioRegs,
}

impl View for PinRegs {
    type V = PinRegsV;

    open spec fn view(&self) -> PinRegsV {
        PinRegsV { gpio: self.gpio@, iomux: self.iomux@, rtcio: self.rtcio@ }
    }
}

impl PinRegsV {
    pub open spec fn wf(&self) -> bool {
        self.gpio.wf() && self.iomux.wf() && self.rtcio.wf()
    }
}

impl PinRegs {
    pub open spec fn wf(&self) -> bool {
        self@.wf()
    }

    pub fn new() -> (r: PinRegs)
        ensures
            r.wf(),
    {
        PinRegs { gpio: GpioRegs::new(), iomux: IoMuxRegs::new(), rtcio: RtcioRegs::new() }
    }
}

/// The DPORT block's peripheral clock-enable and reset-enable registers.
#[derive(Clone, Debug, PartialEq)]
pub struct DportRegs {
    pub perip_clk_en: u32,
    pub perip_rst_en: u32,
}

impl DportRegs {
    pub fn new() -> (r: DportRegs)
        ensures
            r.perip_clk_en == 0,
            r.perip_rst_en == 0,
    {
        DportRegs { perip_clk_en: 0, perip_rst_en: 0 }
    }
}

/// Abstraction of [`I2cRegs`].
#[verifier::ext_equal]
pub struct I2cRegsV {
    pub sda_force_out: bool,
    pub scl_force_out: bool,
    pub sample_scl_level: bool,
    pub ms_mode: bool,
    pub trans_start: bool,
    pub tx_lsb_first: bool,
    pub rx_lsb_first: bool,
    pub clk_en: bool,
    pub nonfifo_en: bool,
    pub tx_fifo_rst: bool,
    pub rx_fifo_rst: bool,
    pub int_ena: u32,
    pub int_st: u32,
    pub comd0: u16,
    pub comd1: u16,
    pub comd2: u16,
    pub comd0_done: bool,
    pub comd1_done: bool,
    pub comd2_done: bool,
    pub scl_low_period: u16,
    pub scl_high_period: u16,
    pub sda_hold: u16,
    pub sda_sample: u16,
    pub scl_rstart_setup: u16,
    pub scl_stop_setup: u16,
    pub scl_start_hold: u16,
    pub scl_stop_hold: u16,
    pub timeout: u32,
    pub sda_filter_thres: u8,
    pub sda_filter_en: bool,
    pub scl_filter_thres: u8,
    pub scl_filter_en: bool,
    pub tx_fifo: Seq<u8>,
}

/// One I2C controller's register file: the control register's fields, FIFO
/// configuration, interrupt enable and status, the three command slots with
/// their hardware-set done flags, the timing registers, the line filters,
/// and the staged transmit FIFO contents.
#[derive(Clone, Debug, PartialEq)]
pub struct I2cRegs {
    /// Control: open-drain force of the SDA output.
    pub sda_force_out: bool,
    /// Control: open-drain force of the SCL output.
    pub scl_force_out: bool,
    /// Control: SCL sampling level selection.
    pub sample_scl_level: bool,
    /// Control: master mode.
    pub ms_mode: bool,
    /// Control: transaction start strobe.
    pub trans_start: bool,
    /// Control: transmit least-significant bit first.
    pub tx_lsb_first: bool,
    /// Control: receive least-significant bit first.
    pub rx_lsb_first: bool,
    /// Control: controller clock output enable.
    pub clk_en: bool,
    /// FIFO configuration: expanded (non-FIFO) access mode.
    pub nonfifo_en: bool,
    /// FIFO configuration: transmit FIFO reset strobe.
    pub tx_fifo_rst: bool,
    /// FIFO configuration: receive FIFO reset strobe.
    pub rx_fifo_rst: bool,
    /// Interrupt enable mask.
    pub int_ena: u32,
    /// Pending interrupt status; cleared by writing the clear register.
    pub int_st: u32,
    /// Command slot 0.
    pub comd0: u16,
    /// Command slot 1.
    pub comd1: u16,
    /// Command slot 2.
    pub comd2: u16,
    /// Hardware-set completion flag of command slot 0.
    pub comd0_done: bool,
    /// Hardware-set completion flag of command slot 1.
    pub comd1_done: bool,
    /// Hardware-set completion flag of command slot 2.
    pub comd2_done: bool,
    /// SCL low phase length, in peripheral-clock cycles.
    pub scl_low_period: u16,
    /// SCL high phase length, in peripheral-clock cycles.
    pub scl_high_period: u16,
    /// SDA hold time after SCL falls.
    pub sda_hold: u16,
    /// SDA sample point after SCL rises.
    pub sda_sample: u16,
    /// Setup window of a (repeated) start condition.
    pub scl_rstart_setup: u16,
    /// Setup window of a stop condition.
    pub scl_stop_setup: u16,
    /// Hold window of a start condition.
    pub scl_start_hold: u16,
    /// Hold window of a stop condition.
    pub scl_stop_hold: u16,
    /// Bus timeout, in peripheral-clock cycles.
    pub timeout: u32,
    /// SDA glitch filter threshold, in peripheral-clock cycles.
    pub sda_filter_thres: u8,
    /// SDA glitch filter enable.
    pub sda_filter_en: bool,
    /// SCL glitch filter threshold, in peripheral-clock cycles.
    pub scl_filter_thres: u8,
    /// SCL glitch filter enable.
    pub scl_filter_en: bool,
    /// Bytes staged in the transmit FIFO, oldest first.
    pub tx_fifo: Vec<u8>,
}

impl View for I2cRegs {
    type V = I2cRegsV;

    open spec fn view(&self) -> I2cRegsV {
        I2cRegsV {
            sda_force_out: self.sda_force_out,
            scl_force_out: self.scl_force_out,
            sample_scl_level: self.sample_scl_level,
            ms_mode: self.ms_mode,
            trans_start: self.trans_start,
            tx_lsb_first: self.tx_lsb_first,
            rx_lsb_first: self.rx_lsb_first,
            clk_en: self.clk_en,
            nonfifo_en: self.nonfifo_en,
            tx_fifo_rst: self.tx_fifo_rst,
            rx_fifo_rst: self.rx_fifo_rst,
            int_ena: self.int_ena,
            int_st: self.int_st,
            comd0: self.comd0,
            comd1: self.comd1,
            comd2: self.comd2,
            comd0_done: self.comd0_done,
            comd1_done: self.comd1_done,
            comd2_done: self.comd2_done,
            scl_low_period: self.scl_low_period,
            scl_high_period: self.scl_high_period,
            sda_hold: self.sda_hold,
            sda_sample: self.sda_sample,
            scl_rstart_setup: self.scl_rstart_setup,
            scl_stop_setup: self.scl_stop_setup,
            scl_start_hold: self.scl_start_hold,
            scl_stop_hold: self.scl_stop_hold,
            timeout: self.timeout,
            sda_filter_thres: self.sda_filter_thres,
            sda_filter_en: self.sda_filter_en,
            scl_filter_thres: self.scl_filter_thres,
            scl_filter_en: self.scl_filter_en,
            tx_fifo: self.tx_fifo@,
        }
    }
}

impl I2cRegs {
    /// The controller's register file with everything zeroed and the FIFO
    /// empty.
    pub fn new() -> (r: I2cRegs)
        ensures
            r@ == (I2cRegsV {
                sda_force_out: false,
                scl_force_out: false,
                sample_scl_level: false,
                ms_mode: false,
                trans_start: false,
                tx_lsb_first: false,
                rx_lsb_first: false,
                clk_en: false,
                nonfifo_en: false,
                tx_fifo_rst: false,
                rx_fifo_rst: false,
                int_ena: 0,
                int_st: 0,
                comd0: 0,
                comd1: 0,
                comd2: 0,
                comd0_done: false,
                comd1_done: false,
                comd2_done: false,
                scl_low_period: 0,
                scl_high_period: 0,
                sda_hold: 0,
                sda_sample: 0,
                scl_rstart_setup: 0,
                scl_stop_setup: 0,
                scl_start_hold: 0,
                scl_stop_hold: 0,
                timeout: 0,
                sda_filter_thres: 0,
                sda_filter_en: false,
                scl_filter_thres: 0,
                scl_filter_en: false,
                tx_fifo: Seq::empty(),
            }),
    {
        let r = I2cRegs {
            sda_force_out: false,
            scl_force_out: false,
            sample_scl_level: false,
            ms_mode: false,
            trans_start: false,
            tx_lsb_first: false,
            rx_lsb_first: false,
            clk_en: false,
            nonfifo_en: false,
            tx_fifo_rst: false,
            rx_fifo_rst: false,
            int_ena: 0,
            int_st: 0,
            comd0: 0,
            comd1: 0,
            comd2: 0,
            comd0_done: false,
            comd1_done: false,
            comd2_done: false,
            scl_low_period: 0,
            scl_high_period: 0,
            sda_hold: 0,
            sda_sample: 0,
            scl_rstart_setup: 0,
            scl_stop_setup: 0,
            scl_start_hold: 0,
            scl_stop_hold: 0,
            timeout: 0,
            sda_filter_thres: 0,
            sda_filter_en: false,
            scl_filter_thres: 0,
            scl_filter_en: false,
            tx_fifo: Vec::new(),
        };
        proof {
            assert(r@ =~= I2cRegsV {
                sda_force_out: false,
                scl_force_out: false,
                sample_scl_level: false,
                ms_mode: false,
                trans_start: false,
                tx_lsb_first: false,
                rx_lsb_first: false,
                clk_en: false,
                nonfifo_en: false,
                tx_fifo_rst: false,
                rx_fifo_rst: false,
                int_ena: 0,
                int_st: 0,
                comd0: 0,
                comd1: 0,
                comd2: 0,
                comd0_done: false,
                comd1_done: false,
                comd2_done: false,
                scl_low_period: 0,
                scl_high_period: 0,
                sda_hold: 0,
                sda_sample: 0,
                scl_rstart_setup: 0,
                scl_stop_setup: 0,
                scl_start_hold: 0,
                scl_stop_hold: 0,
                timeout: 0,
                sda_filter_thres: 0,
                sda_filter_en: false,
                scl_filter_thres: 0,
                scl_filter_en: false,
                tx_fifo: Seq::empty(),
            });
        }
        r
    }
}

/// A table of `n` words, all zero.
fn zero_words(n: usize) -> (v: Vec<u32>)
    ensures
        v.len() == n,
        forall|i: int| 0 <= i < n ==> v@[i] == 0,
{
    let mut v: Vec<u32> = Vec::new();
    let mut i: usize = 0;
    while i < n
        invariant
            i <= n,
            v.len() == i,
            forall|j: int| 0 <= j < i ==> v@[j] == 0,
        decreases n - i,
    {
        v.push(0);
        i = i + 1;
    }
    v
}

} // verus!
