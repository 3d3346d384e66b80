//! Single-bit helpers shared by the devices: test a bit, extract it as
//! 0/1, and clear it.

use vstd::prelude::*;

verus! {

/// The bit at `bit_position` (counted from the least significant end).
pub open spec fn spec_bit_set(byte: u8, bit_position: u8) -> bool {
    byte & (1u8 << bit_position) == (1u8 << bit_position)
}

/// True when the bit at `bit_position` of `byte` is set.
pub fn check_bit(byte: u8, bit_position: u8) -> (r: bool)
    requires
        bit_position < 8,
    ensures
        r == spec_bit_set(byte, bit_position),
{
    let bit_position_value = 1u8 << bit_position;
    byte & bit_position_value == bit_position_value
}

/// The bit at `bit_position` of `byte` as the value 0 or 1.
pub fn get_bit_value(byte: u8, bit_position: u8) -> (r: u8)
    requires
        bit_position < 8,
    ensures
        r == (if spec_bit_set(byte, bit_position) { 1u8 } else { 0u8 }),
{
    if check_bit(byte, bit_position) {
        1
    } else {
        0
    }
}

/// True when the bit at `bit_pos` of `byte` is set.
pub fn bit_is_set(byte: u8, bit_pos: u8) -> (r: bool)
    requires
        bit_pos < 8,
    ensures
        r == spec_bit_set(byte, bit_pos),
{
    let bit_value = 1u8 << bit_pos;
    byte & bit_value == bit_value
}

/// `byte` with the bit at `bit_pos` cleared.
pub fn reset_bit(byte: u8, bit_pos: u8) -> (r: u8)
    requires
        bit_pos < 8,
    ensures
        r == byte & !(1u8 << bit_pos),
        !spec_bit_set(r, bit_pos),
{
    let bit_value = 1u8 << bit_pos;
    let r = byte & !bit_value;
    proof {
        assert(byte & !(1u8 << bit_pos) & (1u8 << bit_pos) != (1u8 << bit_pos)) by (bit_vector)
            requires
                bit_pos < 8,
        ;
    }
    r
}

/// `byte` with the bit at `bit_pos` set.
pub fn set_bit(byte: u8, bit_pos: u8) -> (r: u8)
    requires
        bit_pos < 8,
    ensures
        r == byte | (1u8 << bit_pos),
        spec_bit_set(r, bit_pos),
{
    let bit_value = 1u8 << bit_pos;
    let r = byte | bit_value;
    proof {
        assert((byte | (1u8 << bit_pos)) & (1u8 << bit_pos) == (1u8 << bit_pos)) by (bit_vector)
            requires
                bit_pos < 8,
        ;
    }
    r
}

/// Masking can only clear bits: the result never exceeds the mask.
pub proof fn lemma_u8_and_le(x: u8, y: u8)
    by (bit_vector)
    ensures
        (x & y) <= y,
{
}

/// A vector of `n` copies of `value`, the backing store of the RAMs
/// and the framebuffer.
pub fn filled_vec<T: Copy>(n: usize, value: T) -> (r: Vec<T>)
    ensures
        r@ == Seq::new(n as nat, |i: int| value),
{
    let mut r: Vec<T> = Vec::new();
    let mut i: usize = 0;
    while i < n
        invariant
            i <= n,
            r@ == Seq::new(i as nat, |j: int| value),
        decreases n - i,
    {
        r.push(value);
        proof {
            assert(r@ =~= Seq::new((i + 1) as nat, |j: int| value));
        }
        i = i + 1;
    }
    r
}

} // verus!
