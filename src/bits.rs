//! Bit-field helpers. The executable ones are backed by `softcore_prelude`'s bit vectors.

use softcore_prelude::BitVector;
use vstd::prelude::*;

verus! {

/// A mask of the `len` low bits.
pub open spec fn low_mask(len: u64) -> u64 {
    ((1u64 << len) - 1) as u64
}

/// The `len` bits of `v` that start at bit `start`.
pub open spec fn field(v: u64, start: u64, len: u64) -> u64 {
    (v >> start) & low_mask(len)
}

/// `v` with bit `pos` set to `b`.
pub open spec fn set_bit(v: u64, pos: u64, b: bool) -> u64 {
    (v & !(1u64 << pos)) | ((if b { 1u64 } else { 0u64 }) << pos)
}

/// Whether bit `pos` of `v` is set.
pub open spec fn bit(v: u64, pos: u64) -> bool {
    (v >> pos) & 1 == 1
}

/// `v` with the two bits that start at `from` replaced by `value`.
pub open spec fn set_two_bits(v: u64, from: u64, value: u64) -> u64 {
    (v & !(3u64 << from)) | (value << from)
}

/// Relies on `softcore_prelude::slice`: shifts right by `start`, then keeps `len` bits.
#[verifier::external_body]
pub(crate) fn slice_bits(v: u64, start: u64, len: u64) -> (r: u64)
    requires
        start < 64,
        1 <= len < 64,
    ensures
        r == field(v, start, len),
{
    softcore_prelude::slice::<64, 64>(BitVector::<64>::new(v), start as i128, len as i128).bits()
}

/// Relies on `softcore_prelude::BitVector::<54>::new`: keeps the 54 low bits.
#[verifier::external_body]
pub(crate) fn truncate_54(v: u64) -> (r: u64)
    ensures
        r == v & 0x3f_ffff_ffff_ffff,
{
    BitVector::<54>::new(v).bits()
}

/// Relies on `softcore_prelude::bitvector_update`: sets bit `pos` of `v` to `b`.
#[verifier::external_body]
pub(crate) fn with_bit(v: u64, pos: u64, b: bool) -> (r: u64)
    requires
        pos < 64,
    ensures
        r == set_bit(v, pos, b),
{
    softcore_prelude::bitvector_update::<64>(BitVector::<64>::new(v), pos as i128, b).bits()
}

/// Relies on `softcore_prelude::update_subrange_bits`: replaces the two bits of `v` that
/// start at `from` by `value`.
#[verifier::external_body]
pub(crate) fn with_two_bits(v: u64, from: u64, value: u64) -> (r: u64)
    requires
        from < 62,
        value < 4,
    ensures
        r == set_two_bits(v, from, value),
{
    softcore_prelude::update_subrange_bits::<64, 2>(
        BitVector::<64>::new(v),
        from + 1,
        from,
        BitVector::<2>::new(value),
    ).bits()
}

} // verus!
