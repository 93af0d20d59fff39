//! Bit-level helpers shared by the register model: testing one bit of a
//! 32-bit register and reading or replacing a masked field inside one.

use vstd::prelude::*;

verus! {

/// True when bit `i` of `x` is set.
pub open spec fn bit_is_set(x: u32, i: u32) -> bool {
    x & (1u32 << i) != 0
}

/// The field of `r` that starts at bit `off` and is `mask` wide
/// (`mask` is the field's width mask, e.g. `0x3` for a two-bit field).
pub open spec fn field_get(r: u32, off: u32, mask: u32) -> u32 {
    (r >> off) & mask
}

/// `r` with the field at bit `off` replaced by `v`, every other bit kept.
pub open spec fn field_set(r: u32, off: u32, mask: u32, v: u32) -> u32 {
    (r & !(mask << off)) | ((v & mask) << off)
}

/// Read the field at bit `off` of the register value `r`.
pub fn read_field(r: u32, off: u32, mask: u32) -> (v: u32)
    requires
        off < 32,
    ensures
        v == field_get(r, off, mask),
{
    (r >> off) & mask
}

/// Replace the field at bit `off` of the register value `r` by `v`
/// (a read-modify-write of that field alone).
pub fn write_field(r: u32, off: u32, mask: u32, v: u32) -> (w: u32)
    requires
        off < 32,
    ensures
        w == field_set(r, off, mask, v),
{
    (r & !(mask << off)) | ((v & mask) << off)
}

/// Clearing a register by writing back the value just read from it leaves
/// no bit set: write-1-to-clear applied to a full snapshot empties it.
pub proof fn lemma_clear_snapshot(x: u32)
    ensures
        x & !x == 0,
{
    assert(x & !x == 0) by (bit_vector);
}

} // verus!
