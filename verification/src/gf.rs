//! Arithmetic in the AES byte field GF(2^8), with the reduction polynomial
//! x^8 + x^4 + x^3 + x + 1 (0x11b).
//!
//! Multiplication by the fixed constants 2, 3, 9, 11, 13 and 14 is all the
//! cipher needs: the forward MixColumns matrix uses 2 and 3, the inverse
//! matrix uses 9, 11, 13 and 14. Every constant multiple is built from
//! `xtime` (multiplication by x) and XOR (field addition).

use vstd::prelude::*;

verus! {

/// Multiplication by x in GF(2^8): shift left one bit, and when the high bit
/// fell off, reduce by XOR with 0x1b (the low byte of the reduction polynomial).
pub open spec fn xtime_spec(b: u8) -> u8 {
    (b << 1) ^ (if b & 0x80 == 0x80 {
        0x1bu8
    } else {
        0x00u8
    })
}

/// Multiplication by 2 in GF(2^8).
pub open spec fn mul2_spec(b: u8) -> u8 {
    xtime_spec(b)
}

/// Multiplication by 3 = 2 ^ 1 in GF(2^8).
pub open spec fn mul3_spec(b: u8) -> u8 {
    xtime_spec(b) ^ b
}

/// Multiplication by 9 = 8 ^ 1 in GF(2^8).
pub open spec fn mul9_spec(b: u8) -> u8 {
    xtime_spec(xtime_spec(xtime_spec(b))) ^ b
}

/// Multiplication by 11 = 8 ^ 2 ^ 1 in GF(2^8).
pub open spec fn mul11_spec(b: u8) -> u8 {
    xtime_spec(xtime_spec(xtime_spec(b))) ^ xtime_spec(b) ^ b
}

/// Multiplication by 13 = 8 ^ 4 ^ 1 in GF(2^8).
pub open spec fn mul13_spec(b: u8) -> u8 {
    xtime_spec(xtime_spec(xtime_spec(b))) ^ xtime_spec(xtime_spec(b)) ^ b
}

/// Multiplication by 14 = 8 ^ 4 ^ 2 in GF(2^8).
pub open spec fn mul14_spec(b: u8) -> u8 {
    xtime_spec(xtime_spec(xtime_spec(b))) ^ xtime_spec(xtime_spec(b)) ^ xtime_spec(b)
}

/// Multiplication by x in GF(2^8).
pub fn xtime(b: u8) -> (r: u8)
    ensures
        r == xtime_spec(b),
{
    (b << 1) ^ (if b & 0x80 == 0x80 {
        0x1bu8
    } else {
        0x00u8
    })
}

/// Multiplication by 2 in GF(2^8).
pub fn mul2(b: u8) -> (r: u8)
    ensures
        r == mul2_spec(b),
{
    xtime(b)
}

/// Multiplication by 3 in GF(2^8).
pub fn mul3(b: u8) -> (r: u8)
    ensures
        r == mul3_spec(b),
{
    xtime(b) ^ b
}

/// Multiplication by 9 in GF(2^8).
pub fn mul9(b: u8) -> (r: u8)
    ensures
        r == mul9_spec(b),
{
    xtime(xtime(xtime(b))) ^ b
}

/// Multiplication by 11 in GF(2^8).
pub fn mul11(b: u8) -> (r: u8)
    ensures
        r == mul11_spec(b),
{
    xtime(xtime(xtime(b))) ^ xtime(b) ^ b
}

/// Multiplication by 13 in GF(2^8).
pub fn mul13(b: u8) -> (r: u8)
    ensures
        r == mul13_spec(b),
{
    xtime(xtime(xtime(b))) ^ xtime(xtime(b)) ^ b
}

/// Multiplication by 14 in GF(2^8).
pub fn mul14(b: u8) -> (r: u8)
    ensures
        r == mul14_spec(b),
{
    xtime(xtime(xtime(b))) ^ xtime(xtime(b)) ^ xtime(b)
}

/// Row 0 of the MixColumns matrix applied to one column: 2a ^ 3b ^ c ^ d.
pub open spec fn mix0(a: u8, b: u8, c: u8, d: u8) -> u8 {
    mul2_spec(a) ^ mul3_spec(b) ^ c ^ d
}

/// Row 1 of the MixColumns matrix: a ^ 2b ^ 3c ^ d.
pub open spec fn mix1(a: u8, b: u8, c: u8, d: u8) -> u8 {
    a ^ mul2_spec(b) ^ mul3_spec(c) ^ d
}

/// Row 2 of the MixColumns matrix: a ^ b ^ 2c ^ 3d.
pub open spec fn mix2(a: u8, b: u8, c: u8, d: u8) -> u8 {
    a ^ b ^ mul2_spec(c) ^ mul3_spec(d)
}

/// Row 3 of the MixColumns matrix: 3a ^ b ^ c ^ 2d.
pub open spec fn mix3(a: u8, b: u8, c: u8, d: u8) -> u8 {
    mul3_spec(a) ^ b ^ c ^ mul2_spec(d)
}

/// Row 0 of the InvMixColumns matrix: 14a ^ 11b ^ 13c ^ 9d.
pub open spec fn inv_mix0(a: u8, b: u8, c: u8, d: u8) -> u8 {
    mul14_spec(a) ^ mul11_spec(b) ^ mul13_spec(c) ^ mul9_spec(d)
}

/// Row 1 of the InvMixColumns matrix: 9a ^ 14b ^ 11c ^ 13d.
pub open spec fn inv_mix1(a: u8, b: u8, c: u8, d: u8) -> u8 {
    mul9_spec(a) ^ mul14_spec(b) ^ mul11_spec(c) ^ mul13_spec(d)
}

/// Row 2 of the InvMixColumns matrix: 13a ^ 9b ^ 14c ^ 11d.
pub open spec fn inv_mix2(a: u8, b: u8, c: u8, d: u8) -> u8 {
    mul13_spec(a) ^ mul9_spec(b) ^ mul14_spec(c) ^ mul11_spec(d)
}

/// Row 3 of the InvMixColumns matrix: 11a ^ 13b ^ 9c ^ 14d.
pub open spec fn inv_mix3(a: u8, b: u8, c: u8, d: u8) -> u8 {
    mul11_spec(a) ^ mul13_spec(b) ^ mul9_spec(c) ^ mul14_spec(d)
}

/// The InvMixColumns matrix is the inverse of the MixColumns matrix over
/// GF(2^8): applying the forward rows and then the inverse rows to any
/// column recovers the column.
pub proof fn lemma_inv_mix_of_mix(a: u8, b: u8, c: u8, d: u8)
    by (bit_vector)
    ensures
        inv_mix0(mix0(a, b, c, d), mix1(a, b, c, d), mix2(a, b, c, d), mix3(a, b, c, d)) == a,
        inv_mix1(mix0(a, b, c, d), mix1(a, b, c, d), mix2(a, b, c, d), mix3(a, b, c, d)) == b,
        inv_mix2(mix0(a, b, c, d), mix1(a, b, c, d), mix2(a, b, c, d), mix3(a, b, c, d)) == c,
        inv_mix3(mix0(a, b, c, d), mix1(a, b, c, d), mix2(a, b, c, d), mix3(a, b, c, d)) == d,
{
}

/// XOR with the same byte twice gives the byte back; this is why
/// AddRoundKey is its own inverse.
pub proof fn lemma_xor_cancel(x: u8, k: u8)
    by (bit_vector)
    ensures
        (x ^ k) ^ k == x,
{
}

} // verus!
