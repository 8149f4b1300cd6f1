//! Byte-level arithmetic shared by the register file and the memory bus.
use vstd::prelude::*;

verus! {

/// The 16-bit value whose high byte is `hi` and whose low byte is `lo`.
pub open spec fn join_bytes(hi: u8, lo: u8) -> int {
    hi * 256 + lo
}

/// The high byte of `v` (`v >> 8`).
pub open spec fn high_byte(v: u16) -> u8 {
    (v / 256) as u8
}

/// The low byte of `v` (`v & 0xFF`).
pub open spec fn low_byte(v: u16) -> u8 {
    (v % 256) as u8
}

/// Combines two bytes the way the hardware does: `(hi << 8) | lo`.
pub fn join(hi: u8, lo: u8) -> (r: u16)
    ensures
        r == join_bytes(hi, lo),
{
    let r = (hi as u16) << 8 | (lo as u16);
    assert(((hi as u16) << 8 | (lo as u16)) == hi * 256 + lo) by (bit_vector);
    r
}

/// Splits `v` into its high and low bytes: `(v >> 8, v & 0xFF)`.
pub fn split(v: u16) -> (r: (u8, u8))
    ensures
        r.0 == high_byte(v),
        r.1 == low_byte(v),
        join_bytes(r.0, r.1) == v,
{
    let hi = (v >> 8) as u8;
    let lo = (v & 0xFF) as u8;
    assert((v >> 8) as u8 == (v / 256) as u8 && (v & 0xFF) as u8 == (v % 256) as u8) by (bit_vector);
    (hi, lo)
}

/// Splitting a 16-bit value into bytes and joining them again gives it back.
pub proof fn lemma_join_split(v: u16)
    ensures
        join_bytes(high_byte(v), low_byte(v)) == v,
{
}

} // verus!
