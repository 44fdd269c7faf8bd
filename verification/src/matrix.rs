//! Signal routing matrix: binds a logical peripheral signal to an arbitrary
//! physical pin, in either direction, by writing one word of the GPIO
//! block's select tables. Rebinding an entry silently overwrites it; there
//! is no conflict detection.

use vstd::prelude::*;
use crate::regs::{GpioRegs, GpioV};

verus! {

/// Output-select word: invert the routed output value (bit 10).
pub const MATRIX_OUT_INV: u32 = 0b100_0000_0000;
/// Output-select word: invert the routed output-enable value (bit 12).
pub const MATRIX_OEN_INV: u32 = 0b1_0000_0000_0000;
/// Input-select word: invert the sampled input value (bit 6).
pub const MATRIX_IN_INV: u32 = 64;
/// Input-select word: route through the matrix rather than bypass it (bit 7).
pub const MATRIX_IN_SEL: u32 = 128;
/// Sentinel pin index that feeds an input signal from a constant level
/// instead of a pad; it is the one index that must bypass the matrix.
pub const MATRIX_CONST_PIN: u32 = 52;

/// The word an output binding stores: the signal index, with the two
/// inversion bits at their fixed offsets.
pub open spec fn out_sel_word(signal_idx: u32, out_inverted: bool, oen_inverted: bool) -> u32 {
    (signal_idx | (if out_inverted { MATRIX_OUT_INV } else { 0u32 }))
        | (if oen_inverted { MATRIX_OEN_INV } else { 0u32 })
}

/// The word an input binding stores: the pin index, the inversion bit, and
/// the matrix-routing bit for every pin but the constant-level sentinel.
pub open spec fn in_sel_word(gpio: u32, inverted: bool) -> u32 {
    (gpio | (if inverted { MATRIX_IN_INV } else { 0u32 }))
        | (if gpio != MATRIX_CONST_PIN { MATRIX_IN_SEL } else { 0u32 })
}

/// Effect of an output binding on the GPIO block: one word of the per-pin
/// output-select table changes, nothing else.
pub open spec fn spec_matrix_out(
    v: GpioV,
    gpio: u32,
    signal_idx: u32,
    out_inverted: bool,
    oen_inverted: bool,
) -> GpioV {
    GpioV {
        func_out_sel: v.func_out_sel.update(
            gpio as int,
            out_sel_word(signal_idx, out_inverted, oen_inverted),
        ),
        ..v
    }
}

/// Effect of an input binding on the GPIO block: one word of the per-signal
/// input-select table changes, nothing else.
pub open spec fn spec_matrix_in(v: GpioV, gpio: u32, signal_idx: u32, inverted: bool) -> GpioV {
    GpioV {
        func_in_sel: v.func_in_sel.update(signal_idx as int, in_sel_word(gpio, inverted)),
        ..v
    }
}

/// Routes a logical peripheral output signal to drive a physical pin by
/// writing the pin's slot of the output-signal-select table.
pub fn gpio_matrix_out(
    r: &mut GpioRegs,
    gpio: u32,
    signal_idx: u32,
    out_inverted: bool,
    oen_inverted: bool,
)
    requires
        old(r).wf(),
        gpio < 40,
    ensures
        final(r)@ == spec_matrix_out(old(r)@, gpio, signal_idx, out_inverted, oen_inverted),
        final(r).wf(),
{
    let value: u32 = (signal_idx | (if out_inverted { MATRIX_OUT_INV } else { 0u32 })) | (
    if oen_inverted {
        MATRIX_OEN_INV
    } else {
        0u32
    });
    r.func_out_sel[gpio as usize] = value;
    proof {
        assert(r@ =~= spec_matrix_out(old(r)@, gpio, signal_idx, out_inverted, oen_inverted));
    }
}

/// Routes a physical pin's sampled level to a logical peripheral input
/// signal by writing the signal's slot of the input-select table.
pub fn gpio_matrix_in(r: &mut GpioRegs, gpio: u32, signal_idx: u32, inverted: bool)
    requires
        old(r).wf(),
        signal_idx < 256,
    ensures
        final(r)@ == spec_matrix_in(old(r)@, gpio, signal_idx, inverted),
        final(r).wf(),
{
    let value: u32 = (gpio | (if inverted { MATRIX_IN_INV } else { 0u32 })) | (
    if gpio != MATRIX_CONST_PIN {
        MATRIX_IN_SEL
    } else {
        0u32
    });
    r.func_in_sel[signal_idx as usize] = value;
    proof {
        assert(r@ =~= spec_matrix_in(old(r)@, gpio, signal_idx, inverted));
    }
}

/// Rebinding an input signal fully replaces the prior binding: feeding a
/// signal first from one pin and then from another leaves the block exactly
/// as if only the second binding had ever been made. There is no residual
/// routing to the first pin.
pub proof fn lemma_matrix_in_rebind(
    v: GpioV,
    signal_idx: u32,
    gpio1: u32,
    inverted1: bool,
    gpio2: u32,
    inverted2: bool,
)
    requires
        v.wf(),
        signal_idx < 256,
    ensures
        spec_matrix_in(spec_matrix_in(v, gpio1, signal_idx, inverted1), gpio2, signal_idx, inverted2)
            == spec_matrix_in(v, gpio2, signal_idx, inverted2),
{
    assert(spec_matrix_in(
        spec_matrix_in(v, gpio1, signal_idx, inverted1),
        gpio2,
        signal_idx,
        inverted2,
    ) =~= spec_matrix_in(v, gpio2, signal_idx, inverted2));
}

/// Rebinding a pin's output routing fully replaces the prior binding: the
/// pin's select word holds only what the second binding wrote.
pub proof fn lemma_matrix_out_rebind(
    v: GpioV,
    gpio: u32,
    signal1: u32,
    out_inv1: bool,
    oen_inv1: bool,
    signal2: u32,
    out_inv2: bool,
    oen_inv2: bool,
)
    requires
        v.wf(),
        gpio < 40,
    ensures
        spec_matrix_out(
            spec_matrix_out(v, gpio, signal1, out_inv1, oen_inv1),
            gpio,
            signal2,
            out_inv2,
            oen_inv2,
        ) == spec_matrix_out(v, gpio, signal2, out_inv2, oen_inv2),
{
    assert(spec_matrix_out(
        spec_matrix_out(v, gpio, signal1, out_inv1, oen_inv1),
        gpio,
        signal2,
        out_inv2,
        oen_inv2,
    ) =~= spec_matrix_out(v, gpio, signal2, out_inv2, oen_inv2));
}

} // verus!
