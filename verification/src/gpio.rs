//! Pin capability model and mode transition engine.
//!
//! A [`Gpio`] handle identifies exactly one physical pin and carries its
//! current electrical mode as a type-state marker. Ownership is linear: a
//! mode transition consumes the handle and yields one in the target mode,
//! so two live views of one pin in conflicting modes cannot exist. The
//! handles are created once, by [`GpioExt::split`], in each pin's
//! documented power-on reset mode.
//!
//! Capabilities are data: the per-pin descriptor functions say which pins
//! exist, which can drive an output, which have pull resistors, and which
//! reach the analog/RTC domain. A transition that needs a capability
//! requires it, so an illegal transition is rejected statically rather than
//! checked at run time.
//!
//! Every transition is a fixed register recipe over [`PinRegs`]: detach the
//! pin from the RTC/analog path, mark it matrix-driven, route it as plain
//! GPIO, and rewrite its IO-mux word for the target mode.

use vstd::prelude::*;
use core::marker::PhantomData;
use crate::regs::{
    GpioV, IoMuxV, PinRegs, PinRegsV, RtcChannel, RtcioV, IOMUX_FUN_IE, IOMUX_FUN_WPD,
    IOMUX_FUN_WPU, IOMUX_FUNC_GPIO, IOMUX_MCU_SEL_MASK, IOMUX_MCU_SEL_SHIFT,
};

verus! {

/// Selector word that routes a pad through the plain-GPIO signal of the
/// matrix rather than a dedicated peripheral function.
pub const PLAIN_GPIO_SEL: u32 = 0x100;

/// Floating input (type state).
pub struct Floating;

/// Pulled-down input (type state).
pub struct PullDown;

/// Pulled-up input (type state).
pub struct PullUp;

/// Open-drain input or output (type state).
pub struct OpenDrain;

/// Push-pull output (type state).
pub struct PushPull;

/// Analog mode (type state).
pub struct Analog;

/// Input mode (type state).
#[verifier::reject_recursive_types(MODE)]
pub struct Input<MODE> {
    _mode: PhantomData<MODE>,
}

/// Output mode (type state).
#[verifier::reject_recursive_types(MODE)]
pub struct Output<MODE> {
    _mode: PhantomData<MODE>,
}

/// Combined input/output mode (type state).
#[verifier::reject_recursive_types(MODE)]
pub struct InputOutput<MODE> {
    _mode: PhantomData<MODE>,
}

/// Alternate (dedicated peripheral) function (type state).
#[verifier::reject_recursive_types(MODE)]
pub struct Alternate<MODE> {
    _mode: PhantomData<MODE>,
}

/// Alternate function 1.
pub struct AF1;

/// Alternate function 2.
pub struct AF2;

/// Alternate function 4.
pub struct AF4;

/// Alternate function 5.
pub struct AF5;

/// Alternate function 6.
pub struct AF6;

/// The physical pin indices this part wires out: 0..=23, 25..=27 and
/// 32..=39; indices 24 and 28..=31 do not exist.
pub open spec fn pin_exists(p: u8) -> bool {
    p <= 39 && p != 24 && !(28 <= p && p <= 31)
}

/// Pins 34..=39 are input-only: they have no output driver.
pub open spec fn pin_is_output_capable(p: u8) -> bool {
    pin_exists(p) && p <= 33
}

/// Pins 34..=39 have no internal pull-up/pull-down circuitry either.
pub open spec fn pin_has_pull(p: u8) -> bool {
    pin_exists(p) && p <= 33
}

/// The pin's channel in the RTC-IO domain, or -1 where the pin has no
/// analog wiring.
pub open spec fn pin_rtc_channel_spec(p: u8) -> int {
    if p == 36 {
        0
    } else if p == 37 {
        1
    } else if p == 38 {
        2
    } else if p == 39 {
        3
    } else if p == 34 {
        4
    } else if p == 35 {
        5
    } else if p == 25 {
        6
    } else if p == 26 {
        7
    } else if p == 33 {
        8
    } else if p == 32 {
        9
    } else if p == 4 {
        10
    } else if p == 0 {
        11
    } else if p == 2 {
        12
    } else if p == 15 {
        13
    } else if p == 13 {
        14
    } else if p == 12 {
        15
    } else if p == 14 {
        16
    } else if p == 27 {
        17
    } else {
        -1
    }
}

/// Whether the pin reaches the analog/RTC domain at all.
pub open spec fn pin_has_analog(p: u8) -> bool {
    pin_rtc_channel_spec(p) >= 0
}

/// Whether the pin's RTC channel carries its own pull resistor enables
/// (the sensor and ADC pads, channels 0..=5, do not).
pub open spec fn pin_rtc_has_resistors(p: u8) -> bool {
    pin_rtc_channel_spec(p) >= 6
}

/// The pin's RTC channel, as executable table lookup.
pub fn pin_rtc_channel(p: u8) -> (r: Option<u8>)
    ensures
        match r {
            Some(c) => pin_rtc_channel_spec(p) == c as int && c < 18,
            None => pin_rtc_channel_spec(p) == -1,
        },
{
    match p {
        36 => Some(0),
        37 => Some(1),
        38 => Some(2),
        39 => Some(3),
        34 => Some(4),
        35 => Some(5),
        25 => Some(6),
        26 => Some(7),
        33 => Some(8),
        32 => Some(9),
        4 => Some(10),
        0 => Some(11),
        2 => Some(12),
        15 => Some(13),
        13 => Some(14),
        12 => Some(15),
        14 => Some(16),
        27 => Some(17),
        _ => None,
    }
}

/// The pin's bit inside its bank's 32-bit registers: pins 0..=31 sit in
/// bank 0 under their own index, pins 32..=39 in bank 1 under index minus
/// 32.
pub open spec fn pin_bit(p: u8) -> u32 {
    if p < 32 {
        1u32 << (p as u32)
    } else {
        1u32 << ((p - 32) as u32)
    }
}

/// IO-mux word with the multiplexer function select set to the GPIO-matrix
/// function, everything else untouched.
pub open spec fn iomux_gpio_word(w: u32) -> u32 {
    (w & !IOMUX_MCU_SEL_MASK) | (IOMUX_FUNC_GPIO << IOMUX_MCU_SEL_SHIFT)
}

/// IO-mux word of an output mode: GPIO function selected, then the pull
/// enables both set (push-pull) or both cleared (open drain).
pub open spec fn output_mode_word(w: u32, pulls: bool) -> u32 {
    let w1 = iomux_gpio_word(w);
    if pulls {
        (w1 | IOMUX_FUN_WPD) | IOMUX_FUN_WPU
    } else {
        (w1 & !IOMUX_FUN_WPD) & !IOMUX_FUN_WPU
    }
}

/// IO-mux word of an input mode: GPIO function selected, input buffer
/// enabled, then the pull-down and pull-up enables written for the target
/// sub-mode.
pub open spec fn input_mode_word(w: u32, wpu: bool, wpd: bool) -> u32 {
    let w1 = iomux_gpio_word(w) | IOMUX_FUN_IE;
    let w2 = if wpd {
        w1 | IOMUX_FUN_WPD
    } else {
        w1 & !IOMUX_FUN_WPD
    };
    if wpu {
        w2 | IOMUX_FUN_WPU
    } else {
        w2 & !IOMUX_FUN_WPU
    }
}

/// IO-mux word of an alternate function: the raw function index selected,
/// both pull enables cleared.
pub open spec fn alternate_mode_word(w: u32, f: u8) -> u32 {
    let w1 = (w & !IOMUX_MCU_SEL_MASK) | (((f as u32) & 7) << IOMUX_MCU_SEL_SHIFT);
    (w1 & !IOMUX_FUN_WPD) & !IOMUX_FUN_WPU
}

/// Effect of detaching the pin from the RTC/analog path: its channel's
/// routing multiplexer is cleared; a no-op for a pin without analog wiring.
pub open spec fn spec_detach_rtc(v: PinRegsV, p: u8) -> PinRegsV {
    let ch = pin_rtc_channel_spec(p);
    if ch >= 0 {
        PinRegsV {
            rtcio: RtcioV {
                channels: v.rtcio.channels.update(
                    ch,
                    RtcChannel { mux_sel: false, ..v.rtcio.channels[ch] },
                ),
                ..v.rtcio
            },
            ..v
        }
    } else {
        v
    }
}

/// Effect of marking the pin matrix-driven for output: its function-enable
/// bit set, its output-select word routed as plain GPIO.
pub open spec fn spec_out_path(v: PinRegsV, p: u8) -> PinRegsV {
    let g = if p < 32 {
        GpioV { enable: v.gpio.enable | pin_bit(p), ..v.gpio }
    } else {
        GpioV { enable1: v.gpio.enable1 | pin_bit(p), ..v.gpio }
    };
    PinRegsV { gpio: GpioV { func_out_sel: g.func_out_sel.update(p as int, PLAIN_GPIO_SEL), ..g }, ..v }
}

/// Effect of marking the pin matrix-driven for input: its function-enable
/// bit set, its slot of the input-select table routed as plain GPIO.
pub open spec fn spec_in_path(v: PinRegsV, p: u8) -> PinRegsV {
    let g = if p < 32 {
        GpioV { enable: v.gpio.enable | pin_bit(p), ..v.gpio }
    } else {
        GpioV { enable1: v.gpio.enable1 | pin_bit(p), ..v.gpio }
    };
    PinRegsV { gpio: GpioV { func_in_sel: g.func_in_sel.update(p as int, PLAIN_GPIO_SEL), ..g }, ..v }
}

/// Full effect of a transition into an output mode (push-pull when `pulls`,
/// open drain otherwise).
pub open spec fn spec_into_output(v: PinRegsV, p: u8, pulls: bool) -> PinRegsV {
    let v1 = spec_out_path(spec_detach_rtc(v, p), p);
    PinRegsV {
        iomux: IoMuxV {
            pins: v1.iomux.pins.update(p as int, output_mode_word(v.iomux.pins[p as int], pulls)),
        },
        ..v1
    }
}

/// Full effect of a transition into an input mode with the given pull
/// resistor selection.
pub open spec fn spec_into_input(v: PinRegsV, p: u8, wpu: bool, wpd: bool) -> PinRegsV {
    let v1 = spec_in_path(spec_detach_rtc(v, p), p);
    PinRegsV {
        iomux: IoMuxV {
            pins: v1.iomux.pins.update(p as int, input_mode_word(v.iomux.pins[p as int], wpu, wpd)),
        },
        ..v1
    }
}

/// Full effect of a transition into an alternate function.
pub open spec fn spec_into_alternate(v: PinRegsV, p: u8, f: u8) -> PinRegsV {
    let v1 = spec_out_path(spec_detach_rtc(v, p), p);
    PinRegsV {
        iomux: IoMuxV {
            pins: v1.iomux.pins.update(p as int, alternate_mode_word(v.iomux.pins[p as int], f)),
        },
        ..v1
    }
}

/// Full effect of a transition into analog mode, entirely inside the RTC-IO
/// domain: the channel routed to the RTC module with RTC function 0, normal
/// (not open-drain) pad, RTC-domain output enable and digital input buffer
/// cleared, and both RTC pull enables cleared where the channel has them.
pub open spec fn spec_into_analog(v: PinRegsV, p: u8) -> PinRegsV {
    let ch = pin_rtc_channel_spec(p);
    let c = v.rtcio.channels[ch];
    let c1 = RtcChannel {
        mux_sel: true,
        fun_sel: 0,
        pad_driver: false,
        fun_ie: false,
        rue: if pin_rtc_has_resistors(p) {
            false
        } else {
            c.rue
        },
        rde: if pin_rtc_has_resistors(p) {
            false
        } else {
            c.rde
        },
    };
    PinRegsV {
        rtcio: RtcioV {
            channels: v.rtcio.channels.update(ch, c1),
            enable: v.rtcio.enable & !(1u32 << (ch as u32)),
        },
        ..v
    }
}

/// Effect of driving the pin's output level high or low.
pub open spec fn spec_set_level(v: PinRegsV, p: u8, high: bool) -> PinRegsV {
    let g = if p < 32 {
        if high {
            GpioV { out: v.gpio.out | pin_bit(p), ..v.gpio }
        } else {
            GpioV { out: v.gpio.out & !pin_bit(p), ..v.gpio }
        }
    } else {
        if high {
            GpioV { out1: v.gpio.out1 | pin_bit(p), ..v.gpio }
        } else {
            GpioV { out1: v.gpio.out1 & !pin_bit(p), ..v.gpio }
        }
    };
    PinRegsV { gpio: g, ..v }
}

/// The pin's bit of the output-level register.
pub open spec fn spec_out_bit(v: PinRegsV, p: u8) -> bool {
    if p < 32 {
        v.gpio.out & pin_bit(p) != 0
    } else {
        v.gpio.out1 & pin_bit(p) != 0
    }
}

/// The pin's bit of the sampled input-level register.
pub open spec fn spec_in_bit(v: PinRegsV, p: u8) -> bool {
    if p < 32 {
        v.gpio.in_ & pin_bit(p) != 0
    } else {
        v.gpio.in1 & pin_bit(p) != 0
    }
}

/// A handle on one physical pin, in the electrical mode named by `MODE`.
///
/// Handles have no public constructor: [`GpioExt::split`] creates exactly
/// one per pin, and every transition consumes its input, so at most one
/// live handle exists per pin.
#[verifier::reject_recursive_types(MODE)]
pub struct Gpio<MODE> {
    pin: u8,
    _mode: PhantomData<MODE>,
}

impl<MODE> Gpio<MODE> {
    /// The physical pin this handle owns.
    pub closed spec fn id_spec(&self) -> u8 {
        self.pin
    }

    /// A handle is only ever built for a pin that exists.
    pub open spec fn wf(&self) -> bool {
        pin_exists(self.id_spec())
    }

    /// The physical pin this handle owns.
    pub fn id(&self) -> (p: u8)
        ensures
            p == self.id_spec(),
    {
        self.pin
    }
}

/// Clears the pin's RTC routing multiplexer so the digital GPIO path drives
/// the pad again; a no-op for a pin without analog wiring.
fn rtc_detach(r: &mut PinRegs, p: u8)
    requires
        old(r).wf(),
        pin_exists(p),
    ensures
        final(r)@ == spec_detach_rtc(old(r)@, p),
        final(r).wf(),
{
    match pin_rtc_channel(p) {
        Some(ch) => {
            let c = r.rtcio.channels[ch as usize];
            r.rtcio.channels[ch as usize] = RtcChannel { mux_sel: false, ..c };
        },
        None => {},
    }
    proof {
        assert(r@ =~~= spec_detach_rtc(old(r)@, p));
    }
}

/// The shared output-mode recipe: detach from RTC, set the function-enable
/// bit, route the pad's output as plain GPIO, and rewrite the IO-mux word
/// with both pull enables set (push-pull) or cleared (open drain).
fn apply_output(r: &mut PinRegs, p: u8, pulls: bool)
    requires
        old(r).wf(),
        pin_is_output_capable(p),
    ensures
        final(r)@ == spec_into_output(old(r)@, p, pulls),
        final(r).wf(),
{
    rtc_detach(r, p);
    if p < 32 {
        r.gpio.enable = r.gpio.enable | (1u32 << (p as u32));
    } else {
        r.gpio.enable1 = r.gpio.enable1 | (1u32 << ((p - 32) as u32));
    }
    r.gpio.func_out_sel[p as usize] = PLAIN_GPIO_SEL;
    let w: u32 = r.iomux.pins[p as usize];
    let w1: u32 = (w & !IOMUX_MCU_SEL_MASK) | (IOMUX_FUNC_GPIO << IOMUX_MCU_SEL_SHIFT);
    let w2: u32 = if pulls {
        (w1 | IOMUX_FUN_WPD) | IOMUX_FUN_WPU
    } else {
        (w1 & !IOMUX_FUN_WPD) & !IOMUX_FUN_WPU
    };
    r.iomux.pins[p as usize] = w2;
    proof {
        assert(r@ =~~= spec_into_output(old(r)@, p, pulls));
    }
}

/// The shared input-mode recipe: detach from RTC, set the function-enable
/// bit, route the pad's input slot as plain GPIO, and rewrite the IO-mux
/// word with the input buffer enabled and the pull enables per sub-mode.
fn apply_input(r: &mut PinRegs, p: u8, wpu: bool, wpd: bool)
    requires
        old(r).wf(),
        pin_exists(p),
    ensures
        final(r)@ == spec_into_input(old(r)@, p, wpu, wpd),
        final(r).wf(),
{
    rtc_detach(r, p);
    if p < 32 {
        r.gpio.enable = r.gpio.enable | (1u32 << (p as u32));
    } else {
        r.gpio.enable1 = r.gpio.enable1 | (1u32 << ((p - 32) as u32));
    }
    r.gpio.func_in_sel[p as usize] = PLAIN_GPIO_SEL;
    let w: u32 = r.iomux.pins[p as usize];
    let w1: u32 = ((w & !IOMUX_MCU_SEL_MASK) | (IOMUX_FUNC_GPIO << IOMUX_MCU_SEL_SHIFT))
        | IOMUX_FUN_IE;
    let w2: u32 = if wpd {
        w1 | IOMUX_FUN_WPD
    } else {
        w1 & !IOMUX_FUN_WPD
    };
    let w3: u32 = if wpu {
        w2 | IOMUX_FUN_WPU
    } else {
        w2 & !IOMUX_FUN_WPU
    };
    r.iomux.pins[p as usize] = w3;
    proof {
        assert(r@ =~~= spec_into_input(old(r)@, p, wpu, wpd));
    }
}

/// The alternate-function recipe: as an output transition, but with the raw
/// multiplexer function index written instead of the GPIO function.
fn apply_alternate(r: &mut PinRegs, p: u8, f: u8)
    requires
        old(r).wf(),
        pin_is_output_capable(p),
    ensures
        final(r)@ == spec_into_alternate(old(r)@, p, f),
        final(r).wf(),
{
    rtc_detach(r, p);
    if p < 32 {
        r.gpio.enable = r.gpio.enable | (1u32 << (p as u32));
    } else {
        r.gpio.enable1 = r.gpio.enable1 | (1u32 << ((p - 32) as u32));
    }
    r.gpio.func_out_sel[p as usize] = PLAIN_GPIO_SEL;
    let w: u32 = r.iomux.pins[p as usize];
    let w1: u32 = (w & !IOMUX_MCU_SEL_MASK) | (((f as u32) & 7) << IOMUX_MCU_SEL_SHIFT);
    let w2: u32 = (w1 & !IOMUX_FUN_WPD) & !IOMUX_FUN_WPU;
    r.iomux.pins[p as usize] = w2;
    proof {
        assert(r@ =~~= spec_into_alternate(old(r)@, p, f));
    }
}

/// The analog recipe, entirely inside the RTC-IO domain.
fn apply_analog(r: &mut PinRegs, p: u8)
    requires
        old(r).wf(),
        pin_has_analog(p),
    ensures
        final(r)@ == spec_into_analog(old(r)@, p),
        final(r).wf(),
{
    let ch: u8 = match pin_rtc_channel(p) {
        Some(c) => c,
        None => {
            proof {
                assert(false);
            }
            0
        },
    };
    let c = r.rtcio.channels[ch as usize];
    let c1 = RtcChannel {
        mux_sel: true,
        fun_sel: 0,
        pad_driver: false,
        fun_ie: false,
        rue: if ch >= 6 {
            false
        } else {
            c.rue
        },
        rde: if ch >= 6 {
            false
        } else {
            c.rde
        },
    };
    r.rtcio.channels[ch as usize] = c1;
    r.rtcio.enable = r.rtcio.enable & !(1u32 << (ch as u32));
    proof {
        assert(r@ =~~= spec_into_analog(old(r)@, p));
    }
}

impl<MODE> Gpio<MODE> {
    /// Reconfigures the pin as a push-pull output, consuming the handle.
    pub fn into_push_pull_output(self, r: &mut PinRegs) -> (pin: Gpio<Output<PushPull>>)
        requires
            old(r).wf(),
            self.wf(),
            pin_is_output_capable(self.id_spec()),
        ensures
            final(r)@ == spec_into_output(old(r)@, self.id_spec(), true),
            final(r).wf(),
            pin.id_spec() == self.id_spec(),
            pin.wf(),
    {
        apply_output(r, self.pin, true);
        Gpio { pin: self.pin, _mode: PhantomData }
    }

    /// Drives the output register high before reconfiguring the pin as a
    /// push-pull output, so the pad shows no transient low level when the
    /// driver takes over.
    pub fn into_push_pull_start_high(self, r: &mut PinRegs) -> (pin: Gpio<Output<PushPull>>)
        requires
            old(r).wf(),
            self.wf(),
            pin_is_output_capable(self.id_spec()),
        ensures
            final(r)@ == spec_into_output(
                spec_set_level(old(r)@, self.id_spec(), true),
                self.id_spec(),
                true,
            ),
            final(r).wf(),
            pin.id_spec() == self.id_spec(),
            pin.wf(),
    {
        drive_level(r, self.pin, true);
        self.into_push_pull_output(r)
    }

    /// Drives the output register low before reconfiguring the pin as a
    /// push-pull output, so the pad shows no transient high level when the
    /// driver takes over.
    pub fn into_push_pull_start_low(self, r: &mut PinRegs) -> (pin: Gpio<Output<PushPull>>)
        requires
            old(r).wf(),
            self.wf(),
            pin_is_output_capable(self.id_spec()),
        ensures
            final(r)@ == spec_into_output(
                spec_set_level(old(r)@, self.id_spec(), false),
                self.id_spec(),
                true,
            ),
            final(r).wf(),
            pin.id_spec() == self.id_spec(),
            pin.wf(),
    {
        drive_level(r, self.pin, false);
        self.into_push_pull_output(r)
    }

    /// Reconfigures the pin as an open-drain output with its input buffer
    /// live, consuming the handle.
    pub fn into_open_drain_output(self, r: &mut PinRegs) -> (pin: Gpio<InputOutput<OpenDrain>>)
        requires
            old(r).wf(),
            self.wf(),
            pin_is_output_capable(self.id_spec()),
        ensures
            final(r)@ == spec_into_output(old(r)@, self.id_spec(), false),
            final(r).wf(),
            pin.id_spec() == self.id_spec(),
            pin.wf(),
    {
        apply_output(r, self.pin, false);
        Gpio { pin: self.pin, _mode: PhantomData }
    }

    /// Reconfigures the pin as a floating input, consuming the handle.
    pub fn into_floating_input(self, r: &mut PinRegs) -> (pin: Gpio<Input<Floating>>)
        requires
            old(r).wf(),
            self.wf(),
        ensures
            final(r)@ == spec_into_input(old(r)@, self.id_spec(), false, false),
            final(r).wf(),
            pin.id_spec() == self.id_spec(),
            pin.wf(),
    {
        apply_input(r, self.pin, false, false);
        Gpio { pin: self.pin, _mode: PhantomData }
    }

    /// Reconfigures the pin as a pulled-up input, consuming the handle.
    /// Only pins with internal pull resistors can take this transition.
    pub fn into_pull_up_input(self, r: &mut PinRegs) -> (pin: Gpio<Input<PullUp>>)
        requires
            old(r).wf(),
            self.wf(),
            pin_has_pull(self.id_spec()),
        ensures
            final(r)@ == spec_into_input(old(r)@, self.id_spec(), true, false),
            final(r).wf(),
            pin.id_spec() == self.id_spec(),
            pin.wf(),
    {
        apply_input(r, self.pin, true, false);
        Gpio { pin: self.pin, _mode: PhantomData }
    }

    /// Reconfigures the pin as a pulled-down input, consuming the handle.
    /// Only pins with internal pull resistors can take this transition.
    pub fn into_pull_down_input(self, r: &mut PinRegs) -> (pin: Gpio<Input<PullDown>>)
        requires
            old(r).wf(),
            self.wf(),
            pin_has_pull(self.id_spec()),
        ensures
            final(r)@ == spec_into_input(old(r)@, self.id_spec(), false, true),
            final(r).wf(),
            pin.id_spec() == self.id_spec(),
            pin.wf(),
    {
        apply_input(r, self.pin, false, true);
        Gpio { pin: self.pin, _mode: PhantomData }
    }

    /// Routes the pin to its analog/RTC function, consuming the handle.
    /// Only pins with analog wiring can take this transition.
    pub fn into_analog(self, r: &mut PinRegs) -> (pin: Gpio<Analog>)
        requires
            old(r).wf(),
            self.wf(),
            pin_has_analog(self.id_spec()),
        ensures
            final(r)@ == spec_into_analog(old(r)@, self.id_spec()),
            final(r).wf(),
            pin.id_spec() == self.id_spec(),
            pin.wf(),
    {
        apply_analog(r, self.pin);
        Gpio { pin: self.pin, _mode: PhantomData }
    }

    /// Selects IO-mux function 0 for the pin (alternate function 1).
    pub fn into_alternate_1(self, r: &mut PinRegs) -> (pin: Gpio<Alternate<AF1>>)
        requires
            old(r).wf(),
            self.wf(),
            pin_is_output_capable(self.id_spec()),
        ensures
            final(r)@ == spec_into_alternate(old(r)@, self.id_spec(), 0),
            final(r).wf(),
            pin.id_spec() == self.id_spec(),
            pin.wf(),
    {
        apply_alternate(r, self.pin, 0);
        Gpio { pin: self.pin, _mode: PhantomData }
    }

    /// Selects IO-mux function 1 for the pin (alternate function 2).
    pub fn into_alternate_2(self, r: &mut PinRegs) -> (pin: Gpio<Alternate<AF2>>)
        requires
            old(r).wf(),
            self.wf(),
            pin_is_output_capable(self.id_spec()),
        ensures
            final(r)@ == spec_into_alternate(old(r)@, self.id_spec(), 1),
            final(r).wf(),
            pin.id_spec() == self.id_spec(),
            pin.wf(),
    {
        apply_alternate(r, self.pin, 1);
        Gpio { pin: self.pin, _mode: PhantomData }
    }

    /// Selects IO-mux function 3 for the pin (alternate function 4).
    pub fn into_alternate_4(self, r: &mut PinRegs) -> (pin: Gpio<Alternate<AF4>>)
        requires
            old(r).wf(),
            self.wf(),
            pin_is_output_capable(self.id_spec()),
        ensures
            final(r)@ == spec_into_alternate(old(r)@, self.id_spec(), 3),
            final(r).wf(),
            pin.id_spec() == self.id_spec(),
            pin.wf(),
    {
        apply_alternate(r, self.pin, 3);
        Gpio { pin: self.pin, _mode: PhantomData }
    }

    /// Selects IO-mux function 4 for the pin (alternate function 5).
    pub fn into_alternate_5(self, r: &mut PinRegs) -> (pin: Gpio<Alternate<AF5>>)
        requires
            old(r).wf(),
            self.wf(),
            pin_is_output_capable(self.id_spec()),
        ensures
            final(r)@ == spec_into_alternate(old(r)@, self.id_spec(), 4),
            final(r).wf(),
            pin.id_spec() == self.id_spec(),
            pin.wf(),
    {
        apply_alternate(r, self.pin, 4);
        Gpio { pin: self.pin, _mode: PhantomData }
    }

    /// Selects IO-mux function 5 for the pin (alternate function 6).
    pub fn into_alternate_6(self, r: &mut PinRegs) -> (pin: Gpio<Alternate<AF6>>)
        requires
            old(r).wf(),
            self.wf(),
            pin_is_output_capable(self.id_spec()),
        ensures
            final(r)@ == spec_into_alternate(old(r)@, self.id_spec(), 5),
            final(r).wf(),
            pin.id_spec() == self.id_spec(),
            pin.wf(),
    {
        apply_alternate(r, self.pin, 5);
        Gpio { pin: self.pin, _mode: PhantomData }
    }
}

/// Drives the pin's output-level bit high.
fn drive_level(r: &mut PinRegs, p: u8, high: bool)
    requires
        old(r).wf(),
        pin_exists(p),
    ensures
        final(r)@ == spec_set_level(old(r)@, p, high),
        final(r).wf(),
{
    if p < 32 {
        let bit: u32 = 1u32 << (p as u32);
        if high {
            r.gpio.out = r.gpio.out | bit;
        } else {
            r.gpio.out = r.gpio.out & !bit;
        }
    } else {
        let bit: u32 = 1u32 << ((p - 32) as u32);
        if high {
            r.gpio.out1 = r.gpio.out1 | bit;
        } else {
            r.gpio.out1 = r.gpio.out1 & !bit;
        }
    }
    proof {
        assert(r@ =~~= spec_set_level(old(r)@, p, high));
    }
}

/// Reads the pin's bit of the output-level register.
fn read_out_bit(r: &PinRegs, p: u8) -> (b: bool)
    requires
        r.wf(),
        pin_exists(p),
    ensures
        b == spec_out_bit(r@, p),
{
    if p < 32 {
        r.gpio.out & (1u32 << (p as u32)) != 0
    } else {
        r.gpio.out1 & (1u32 << ((p - 32) as u32)) != 0
    }
}

/// Reads the pin's bit of the sampled input-level register.
fn read_in_bit(r: &PinRegs, p: u8) -> (b: bool)
    requires
        r.wf(),
        pin_exists(p),
    ensures
        b == spec_in_bit(r@, p),
{
    if p < 32 {
        r.gpio.in_ & (1u32 << (p as u32)) != 0
    } else {
        r.gpio.in1 & (1u32 << ((p - 32) as u32)) != 0
    }
}

impl<MODE> Gpio<Output<MODE>> {
    /// Drives the output level high.
    pub fn set_high(&self, r: &mut PinRegs)
        requires
            old(r).wf(),
            self.wf(),
        ensures
            final(r)@ == spec_set_level(old(r)@, self.id_spec(), true),
            final(r).wf(),
    {
        drive_level(r, self.pin, true);
    }

    /// Drives the output level low.
    pub fn set_low(&self, r: &mut PinRegs)
        requires
            old(r).wf(),
            self.wf(),
        ensures
            final(r)@ == spec_set_level(old(r)@, self.id_spec(), false),
            final(r).wf(),
    {
        drive_level(r, self.pin, false);
    }

    /// Whether the output register currently drives the pin high.
    pub fn is_set_high(&self, r: &PinRegs) -> (b: bool)
        requires
            r.wf(),
            self.wf(),
        ensures
            b == spec_out_bit(r@, self.id_spec()),
    {
        read_out_bit(r, self.pin)
    }

    /// Whether the output register currently drives the pin low.
    pub fn is_set_low(&self, r: &PinRegs) -> (b: bool)
        requires
            r.wf(),
            self.wf(),
        ensures
            b == !spec_out_bit(r@, self.id_spec()),
    {
        !self.is_set_high(r)
    }

    /// Flips the driven output level.
    pub fn toggle(&self, r: &mut PinRegs)
        requires
            old(r).wf(),
            self.wf(),
        ensures
            final(r)@ == spec_set_level(old(r)@, self.id_spec(), !spec_out_bit(old(r)@, self.id_spec())),
            final(r).wf(),
    {
        if self.is_set_high(r) {
            self.set_low(r);
        } else {
            self.set_high(r);
        }
    }
}

impl<MODE> Gpio<InputOutput<MODE>> {
    /// Drives the output level high (for open drain: releases the line).
    pub fn set_high(&self, r: &mut PinRegs)
        requires
            old(r).wf(),
            self.wf(),
        ensures
            final(r)@ == spec_set_level(old(r)@, self.id_spec(), true),
            final(r).wf(),
    {
        drive_level(r, self.pin, true);
    }

    /// Drives the output level low (for open drain: pulls the line down).
    pub fn set_low(&self, r: &mut PinRegs)
        requires
            old(r).wf(),
            self.wf(),
        ensures
            final(r)@ == spec_set_level(old(r)@, self.id_spec(), false),
            final(r).wf(),
    {
        drive_level(r, self.pin, false);
    }

    /// Samples the pin's input level; always defined, even when nothing
    /// drives the line.
    pub fn is_high(&self, r: &PinRegs) -> (b: bool)
        requires
            r.wf(),
            self.wf(),
        ensures
            b == spec_in_bit(r@, self.id_spec()),
    {
        read_in_bit(r, self.pin)
    }

    /// Samples the pin's input level.
    pub fn is_low(&self, r: &PinRegs) -> (b: bool)
        requires
            r.wf(),
            self.wf(),
        ensures
            b == !spec_in_bit(r@, self.id_spec()),
    {
        !self.is_high(r)
    }
}

impl<MODE> Gpio<Input<MODE>> {
    /// Samples the pin's input level; always defined, even when nothing
    /// drives the line.
    pub fn is_high(&self, r: &PinRegs) -> (b: bool)
        requires
            r.wf(),
            self.wf(),
        ensures
            b == spec_in_bit(r@, self.id_spec()),
    {
        read_in_bit(r, self.pin)
    }

    /// Samples the pin's input level.
    pub fn is_low(&self, r: &PinRegs) -> (b: bool)
        requires
            r.wf(),
            self.wf(),
        ensures
            b == !spec_in_bit(r@, self.id_spec()),
    {
        !self.is_high(r)
    }
}

/// Extension trait that splits a GPIO register bank into independent pins
/// and registers.
pub trait GpioExt {
    /// What the bank splits into.
    type Parts;

    /// Splits the bank into independent pins and registers.
    fn split(self) -> Self::Parts;
}

/// One handle per physical pin, each in the pin's documented power-on reset
/// mode, together with the register bank the handles act on.
pub struct Parts {
    pub regs: PinRegs,
    pub gpio0: Gpio<Input<PullUp>>,
    pub gpio1: Gpio<Input<PullUp>>,
    pub gpio2: Gpio<Input<PullDown>>,
    pub gpio3: Gpio<Input<PullUp>>,
    pub gpio4: Gpio<Input<PullDown>>,
    pub gpio5: Gpio<Input<PullUp>>,
    pub gpio6: Gpio<Input<PullUp>>,
    pub gpio7: Gpio<Input<PullUp>>,
    pub gpio8: Gpio<Input<PullUp>>,
    pub gpio9: Gpio<Input<PullUp>>,
    pub gpio10: Gpio<Input<PullUp>>,
    pub gpio11: Gpio<Input<PullUp>>,
    pub gpio12: Gpio<Input<PullDown>>,
    pub gpio13: Gpio<Input<Floating>>,
    pub gpio14: Gpio<Input<Floating>>,
    pub gpio15: Gpio<Input<PullUp>>,
    pub gpio16: Gpio<Input<Floating>>,
    pub gpio17: Gpio<Input<Floating>>,
    pub gpio18: Gpio<Input<Floating>>,
    pub gpio19: Gpio<Input<Floating>>,
    pub gpio20: Gpio<Input<Floating>>,
    pub gpio21: Gpio<Input<Floating>>,
    pub gpio22: Gpio<Input<Floating>>,
    pub gpio23: Gpio<Input<Floating>>,
    pub gpio25: Gpio<Input<Floating>>,
    pub gpio26: Gpio<Input<Floating>>,
    pub gpio27: Gpio<Input<Floating>>,
    pub gpio32: Gpio<Input<Floating>>,
    pub gpio33: Gpio<Input<Floating>>,
    pub gpio34: Gpio<Input<Floating>>,
    pub gpio35: Gpio<Input<Floating>>,
    pub gpio36: Gpio<Input<Floating>>,
    pub gpio37: Gpio<Input<Floating>>,
    pub gpio38: Gpio<Input<Floating>>,
    pub gpio39: Gpio<Input<Floating>>,
}

impl PinRegs {
    /// Splits the bank into one handle per pin, each owning its own index.
    /// This is the only producer of pin handles, so for each physical pin
    /// at most one live handle exists at any time.
    pub fn split_pins(self) -> (parts: Parts)
        ensures
            parts.regs == self,
            parts.gpio0.id_spec() == 0,
            parts.gpio1.id_spec() == 1,
            parts.gpio2.id_spec() == 2,
            parts.gpio3.id_spec() == 3,
            parts.gpio4.id_spec() == 4,
            parts.gpio5.id_spec() == 5,
            parts.gpio6.id_spec() == 6,
            parts.gpio7.id_spec() == 7,
            parts.gpio8.id_spec() == 8,
            parts.gpio9.id_spec() == 9,
            parts.gpio10.id_spec() == 10,
            parts.gpio11.id_spec() == 11,
            parts.gpio12.id_spec() == 12,
            parts.gpio13.id_spec() == 13,
            parts.gpio14.id_spec() == 14,
            parts.gpio15.id_spec() == 15,
            parts.gpio16.id_spec() == 16,
            parts.gpio17.id_spec() == 17,
            parts.gpio18.id_spec() == 18,
            parts.gpio19.id_spec() == 19,
            parts.gpio20.id_spec() == 20,
            parts.gpio21.id_spec() == 21,
            parts.gpio22.id_spec() == 22,
            parts.gpio23.id_spec() == 23,
            parts.gpio25.id_spec() == 25,
            parts.gpio26.id_spec() == 26,
            parts.gpio27.id_spec() == 27,
            parts.gpio32.id_spec() == 32,
            parts.gpio33.id_spec() == 33,
            parts.gpio34.id_spec() == 34,
            parts.gpio35.id_spec() == 35,
            parts.gpio36.id_spec() == 36,
            parts.gpio37.id_spec() == 37,
            parts.gpio38.id_spec() == 38,
            parts.gpio39.id_spec() == 39,
    {
        Parts {
            regs: self,
            gpio0: Gpio { pin: 0, _mode: PhantomData },
            gpio1: Gpio { pin: 1, _mode: PhantomData },
            gpio2: Gpio { pin: 2, _mode: PhantomData },
            gpio3: Gpio { pin: 3, _mode: PhantomData },
            gpio4: Gpio { pin: 4, _mode: PhantomData },
            gpio5: Gpio { pin: 5, _mode: PhantomData },
            gpio6: Gpio { pin: 6, _mode: PhantomData },
            gpio7: Gpio { pin: 7, _mode: PhantomData },
            gpio8: Gpio { pin: 8, _mode: PhantomData },
            gpio9: Gpio { pin: 9, _mode: PhantomData },
            gpio10: Gpio { pin: 10, _mode: PhantomData },
            gpio11: Gpio { pin: 11, _mode: PhantomData },
            gpio12: Gpio { pin: 12, _mode: PhantomData },
            gpio13: Gpio { pin: 13, _mode: PhantomData },
            gpio14: Gpio { pin: 14, _mode: PhantomData },
            gpio15: Gpio { pin: 15, _mode: PhantomData },
            gpio16: Gpio { pin: 16, _mode: PhantomData },
            gpio17: Gpio { pin: 17, _mode: PhantomData },
            gpio18: Gpio { pin: 18, _mode: PhantomData },
            gpio19: Gpio { pin: 19, _mode: PhantomData },
            gpio20: Gpio { pin: 20, _mode: PhantomData },
            gpio21: Gpio { pin: 21, _mode: PhantomData },
            gpio22: Gpio { pin: 22, _mode: PhantomData },
            gpio23: Gpio { pin: 23, _mode: PhantomData },
            gpio25: Gpio { pin: 25, _mode: PhantomData },
            gpio26: Gpio { pin: 26, _mode: PhantomData },
            gpio27: Gpio { pin: 27, _mode: PhantomData },
            gpio32: Gpio { pin: 32, _mode: PhantomData },
            gpio33: Gpio { pin: 33, _mode: PhantomData },
            gpio34: Gpio { pin: 34, _mode: PhantomData },
            gpio35: Gpio { pin: 35, _mode: PhantomData },
            gpio36: Gpio { pin: 36, _mode: PhantomData },
            gpio37: Gpio { pin: 37, _mode: PhantomData },
            gpio38: Gpio { pin: 38, _mode: PhantomData },
            gpio39: Gpio { pin: 39, _mode: PhantomData },
        }
    }
}

impl GpioExt for PinRegs {
    type Parts = Parts;

    fn split(self) -> Self::Parts {
        self.split_pins()
    }
}

/// Setting the same bit twice leaves the word as setting it once does.
proof fn lemma_or_idempotent(x: u32, y: u32)
    by (bit_vector)
    ensures
        (x | y) | y == x | y,
{
}

/// The push-pull IO-mux word survives a detour through the open-drain word:
/// both rewrite exactly the function-select and pull-enable fields, so
/// reapplying push-pull restores the word bit for bit.
proof fn lemma_word_round_trip(w: u32)
    by (bit_vector)
    ensures
        output_mode_word(output_mode_word(output_mode_word(w, true), false), true)
            == output_mode_word(w, true),
{
}

/// Round trip: taking a pin from push-pull output through open drain and
/// back to push-pull leaves every register bit exactly as a single
/// push-pull transition does; intermediate modes cause no drift.
pub proof fn lemma_output_round_trip(v: PinRegsV, p: u8)
    requires
        v.wf(),
        pin_is_output_capable(p),
    ensures
        spec_into_output(spec_into_output(spec_into_output(v, p, true), p, false), p, true)
            == spec_into_output(v, p, true),
{
    let a = spec_into_output(v, p, true);
    let b = spec_into_output(a, p, false);
    let c = spec_into_output(b, p, true);
    if p < 32 {
        lemma_or_idempotent(v.gpio.enable, pin_bit(p));
        lemma_or_idempotent(v.gpio.enable | pin_bit(p), pin_bit(p));
    } else {
        lemma_or_idempotent(v.gpio.enable1, pin_bit(p));
        lemma_or_idempotent(v.gpio.enable1 | pin_bit(p), pin_bit(p));
    }
    lemma_word_round_trip(v.iomux.pins[p as int]);
    assert(c =~~= a);
}

} // verus!
