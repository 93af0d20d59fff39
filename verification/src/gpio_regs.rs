//! Model of the shared GPIO port registers.
//!
//! The hardware exposes write-only "set output", "clear output" and "toggle
//! output" registers (one bit per pin), a data-in register, an output-enable
//! register, and a combined event-flag register that latches edge interrupts
//! and is cleared by writing a 1 to a bit. The model keeps the state those
//! registers act on as plain values: the output latch, the output-enable
//! word, the level applied to each pad from outside, and the latched event
//! flags. A harness sets `ext_in` and `evflags` to play the hardware's part;
//! the driver only goes through the methods, each of which is one register
//! access with its documented semantics.

use vstd::prelude::*;

verus! {

use crate::bits::bit_is_set;

pub struct GpioRegisters {
    /// Output latch: the level driven on every output-enabled pin. Written
    /// only through the set/clear/toggle registers.
    pub dout: u32,
    /// Output enable, one bit per pin.
    pub doe: u32,
    /// Level applied externally to each pad; sampled by the data-in register
    /// on pins that do not drive. The hardware's side of the model.
    pub ext_in: u32,
    /// Latched edge events, one bit per pin; write-1-to-clear. The hardware's
    /// side of the model sets bits here when an edge arrives.
    pub evflags: u32,
}

impl GpioRegisters {
    /// What the data-in register reads: a driving pin samples its own output
    /// latch, any other pin samples the externally applied level.
    pub open spec fn din(self) -> u32 {
        (self.doe & self.dout) | (!self.doe & self.ext_in)
    }

    /// A port with nothing driven, nothing enabled and no event latched.
    pub fn new() -> (r: GpioRegisters)
        ensures
            r == (GpioRegisters { dout: 0, doe: 0, ext_in: 0, evflags: 0 }),
    {
        GpioRegisters { dout: 0, doe: 0, ext_in: 0, evflags: 0 }
    }

    /// Write `v` to the "set output" register: every 1 bit of `v` is set in
    /// the output latch, every 0 bit leaves its pin alone.
    pub fn write_dout_set(&mut self, v: u32)
        ensures
            final (self).dout == old(self).dout | v,
            final (self).doe == old(self).doe,
            final (self).ext_in == old(self).ext_in,
            final (self).evflags == old(self).evflags,
    {
        self.dout = self.dout | v;
    }

    /// Write `v` to the "clear output" register: every 1 bit of `v` is
    /// cleared in the output latch, every 0 bit leaves its pin alone.
    pub fn write_dout_clr(&mut self, v: u32)
        ensures
            final (self).dout == old(self).dout & !v,
            final (self).doe == old(self).doe,
            final (self).ext_in == old(self).ext_in,
            final (self).evflags == old(self).evflags,
    {
        self.dout = self.dout & !v;
    }

    /// Write `v` to the "toggle output" register: every 1 bit of `v` flips
    /// its pin's output latch, every 0 bit leaves its pin alone.
    pub fn write_dout_tgl(&mut self, v: u32)
        ensures
            final (self).dout == old(self).dout ^ v,
            final (self).doe == old(self).doe,
            final (self).ext_in == old(self).ext_in,
            final (self).evflags == old(self).evflags,
    {
        self.dout = self.dout ^ v;
    }

    /// Read the data-in register.
    pub fn read_din(&self) -> (v: u32)
        ensures
            v == self.din(),
    {
        (self.doe & self.dout) | (!self.doe & self.ext_in)
    }

    /// Read the output-enable register.
    pub fn read_doe(&self) -> (v: u32)
        ensures
            v == self.doe,
    {
        self.doe
    }

    /// Write the output-enable register whole.
    pub fn write_doe(&mut self, v: u32)
        ensures
            final (self).doe == v,
            final (self).dout == old(self).dout,
            final (self).ext_in == old(self).ext_in,
            final (self).evflags == old(self).evflags,
    {
        self.doe = v;
    }

    /// Read the combined event-flag register.
    pub fn read_evflags(&self) -> (v: u32)
        ensures
            v == self.evflags,
    {
        self.evflags
    }

    /// Write the event-flag register: write-1-to-clear, so every 1 bit of
    /// `v` clears that latched event and every 0 bit leaves its bit alone.
    pub fn write_evflags(&mut self, v: u32)
        ensures
            final (self).evflags == old(self).evflags & !v,
            final (self).dout == old(self).dout,
            final (self).doe == old(self).doe,
            final (self).ext_in == old(self).ext_in,
    {
        self.evflags = self.evflags & !v;
    }
}

/// Law: for any pin index and any prior register state, enabling the pin's
/// output and writing its mask to the "set" register makes the pin read
/// back high, and writing its mask to the "clear" register makes it read
/// back low.
pub proof fn lemma_output_readback(g: GpioRegisters, i: u32)
    requires
        i < 32,
    ensures
        bit_is_set(
            (GpioRegisters { doe: g.doe | (1u32 << i), dout: g.dout | (1u32 << i), ..g }).din(),
            i,
        ),
        !bit_is_set(
            (GpioRegisters { doe: g.doe | (1u32 << i), dout: g.dout & !(1u32 << i), ..g }).din(),
            i,
        ),
{
    let d = g.dout;
    let e = g.doe;
    let x = g.ext_in;
    assert((((e | (1u32 << i)) & (d | (1u32 << i))) | (!(e | (1u32 << i)) & x)) & (1u32 << i) != 0)
        by (bit_vector)
        requires
            i < 32u32,
    ;
    assert((((e | (1u32 << i)) & (d & !(1u32 << i))) | (!(e | (1u32 << i)) & x)) & (1u32 << i)
        == 0) by (bit_vector)
        requires
            i < 32u32,
    ;
}

/// Law: writing a driving pin's mask to the "toggle" register flips the
/// level that pin reads back, and flips it exactly once.
pub proof fn lemma_toggle_flips(g: GpioRegisters, i: u32)
    requires
        i < 32,
        bit_is_set(g.doe, i),
    ensures
        bit_is_set((GpioRegisters { dout: g.dout ^ (1u32 << i), ..g }).din(), i) == !bit_is_set(
            g.din(),
            i,
        ),
{
    let d = g.dout;
    let e = g.doe;
    let x = g.ext_in;
    assert((((e & (d ^ (1u32 << i))) | (!e & x)) & (1u32 << i) != 0) == !(((e & d) | (!e & x)) & (
    1u32 << i) != 0)) by (bit_vector)
        requires
            i < 32u32,
            e & (1u32 << i) != 0,
    ;
}

} // verus!
