//! Byte and word utilities: assembling a 16-bit word from two bytes,
//! splitting a word into its halves, and circular single-bit rotation.

use vstd::prelude::*;

verus! {

/// The 16-bit word whose high-order byte is `h` and low-order byte is `l`.
pub open spec fn spec_assemble_word(h: u8, l: u8) -> u16 {
    (h * 256 + l) as u16
}

/// The high-order byte of a 16-bit word.
pub open spec fn spec_high_order_byte(n: u16) -> u8 {
    (n / 256) as u8
}

/// The low-order byte of a 16-bit word.
pub open spec fn spec_low_order_byte(n: u16) -> u8 {
    (n % 256) as u8
}

/// A byte rotated right by one bit: bit 0 moves to bit 7.
pub open spec fn spec_rotate_right(n: u8) -> u8 {
    (n % 2 * 128 + n / 2) as u8
}

/// A byte rotated left by one bit: bit 7 moves to bit 0.
pub open spec fn spec_rotate_left(n: u8) -> u8 {
    (n % 128 * 2 + n / 128) as u8
}

/// Assembles a 16-bit word out of a high-order and a low-order byte.
pub fn assemble_word(h: u8, l: u8) -> (r: u16)
    ensures
        r == spec_assemble_word(h, l),
        r == h * 256 + l,
{
    (h as u16) * 256 + (l as u16)
}

/// The high-order byte of a 16-bit word.
pub fn high_order_byte(n: u16) -> (r: u8)
    ensures
        r == spec_high_order_byte(n),
        r == n / 256,
{
    (n / 256) as u8
}

/// The low-order byte of a 16-bit word.
pub fn low_order_byte(n: u16) -> (r: u8)
    ensures
        r == spec_low_order_byte(n),
        r == n % 256,
{
    (n % 256) as u8
}

/// Rotates a byte right circularly by one bit: bit 0 moves to bit 7.
pub fn rotate_right(n: u8) -> (r: u8)
    ensures
        r == spec_rotate_right(n),
{
    n % 2 * 128 + n / 2
}

/// Rotates a byte left circularly by one bit: bit 7 moves to bit 0.
pub fn rotate_left(n: u8) -> (r: u8)
    ensures
        r == spec_rotate_left(n),
{
    n % 128 * 2 + n / 128
}

/// Law: splitting the word assembled out of two bytes gives back exactly
/// those bytes, and reassembling the halves of any word gives back the word.
pub proof fn lemma_word_round_trip(h: u8, l: u8, w: u16)
    ensures
        spec_high_order_byte(spec_assemble_word(h, l)) == h,
        spec_low_order_byte(spec_assemble_word(h, l)) == l,
        spec_assemble_word(spec_high_order_byte(w), spec_low_order_byte(w)) == w,
{
}

/// Law: the two single-bit rotations are mutual inverses.
pub proof fn lemma_rotate_inverse(x: u8)
    ensures
        spec_rotate_left(spec_rotate_right(x)) == x,
        spec_rotate_right(spec_rotate_left(x)) == x,
{
}

/// Law: eight successive rotations in either direction reproduce the byte.
pub proof fn lemma_rotate_eight(x: u8)
    ensures
        spec_rotate_left(spec_rotate_left(spec_rotate_left(spec_rotate_left(
            spec_rotate_left(spec_rotate_left(spec_rotate_left(spec_rotate_left(x))))))))
            == x,
        spec_rotate_right(spec_rotate_right(spec_rotate_right(spec_rotate_right(
            spec_rotate_right(spec_rotate_right(spec_rotate_right(spec_rotate_right(x))))))))
            == x,
{
    assert(spec_rotate_left(spec_rotate_left(spec_rotate_left(spec_rotate_left(
        spec_rotate_left(spec_rotate_left(spec_rotate_left(spec_rotate_left(x))))))))
        == x) by (bit_vector);
    assert(spec_rotate_right(spec_rotate_right(spec_rotate_right(spec_rotate_right(
        spec_rotate_right(spec_rotate_right(spec_rotate_right(spec_rotate_right(x))))))))
        == x) by (bit_vector);
}

} // verus!
