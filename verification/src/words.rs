//! Packing four bytes into a 32-bit key-schedule word and back, big-endian:
//! byte 0 is the most significant.

use vstd::prelude::*;

verus! {

/// The 32-bit word whose big-endian bytes are b0, b1, b2, b3.
pub open spec fn word_spec(b0: u8, b1: u8, b2: u8, b3: u8) -> u32 {
    ((b0 as u32) << 24) | ((b1 as u32) << 16) | ((b2 as u32) << 8) | (b3 as u32)
}

/// Byte 0 (most significant) of a word.
pub open spec fn byte0(w: u32) -> u8 {
    (w >> 24) as u8
}

/// Byte 1 of a word.
pub open spec fn byte1(w: u32) -> u8 {
    (w >> 16) as u8
}

/// Byte 2 of a word.
pub open spec fn byte2(w: u32) -> u8 {
    (w >> 8) as u8
}

/// Byte 3 (least significant) of a word.
pub open spec fn byte3(w: u32) -> u8 {
    w as u8
}

/// Byte `j` of a word, counting from the most significant.
pub open spec fn word_byte(w: u32, j: int) -> u8 {
    if j == 0 {
        byte0(w)
    } else if j == 1 {
        byte1(w)
    } else if j == 2 {
        byte2(w)
    } else {
        byte3(w)
    }
}

/// Pack four bytes into a word, big-endian.
pub fn word(bs: [u8; 4]) -> (r: u32)
    ensures
        r == word_spec(bs[0], bs[1], bs[2], bs[3]),
{
    ((bs[0] as u32) << 24) | ((bs[1] as u32) << 16) | ((bs[2] as u32) << 8) | (bs[3] as u32)
}

/// Unpack a word into its four big-endian bytes.
pub fn unword(w: u32) -> (r: [u8; 4])
    ensures
        r[0] == byte0(w),
        r[1] == byte1(w),
        r[2] == byte2(w),
        r[3] == byte3(w),
{
    [(w >> 24) as u8, (w >> 16) as u8, (w >> 8) as u8, w as u8]
}

} // verus!
