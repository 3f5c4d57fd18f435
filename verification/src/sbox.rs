//! The AES S-box and its inverse: the byte substitution used by SubBytes,
//! InvSubBytes and the key schedule.
//!
//! Each table is written out as a two-level selection on the high and low
//! nibble of the input byte, the layout of the standard 16 x 16 table. The
//! entries are the standard AES values: the affine transform of the
//! multiplicative inverse in GF(2^8). The crate does not re-derive them from
//! the field; instead `lemma_inv_sbox_of_sbox` proves the property the cipher
//! needs, that the two tables are exact inverses of one another.

use vstd::prelude::*;

verus! {

/// The AES S-box as a function on bytes.
pub open spec fn sbox_spec(b: u8) -> u8 {
    let hi: u8 = b >> 4;
    let lo: u8 = b & 0x0f;
    if hi == 0 {
        if lo == 0 { 0x63 }
        else if lo == 1 { 0x7c }
        else if lo == 2 { 0x77 }
        else if lo == 3 { 0x7b }
        else if lo == 4 { 0xf2 }
        else if lo == 5 { 0x6b }
        else if lo == 6 { 0x6f }
        else if lo == 7 { 0xc5 }
        else if lo == 8 { 0x30 }
        else if lo == 9 { 0x01 }
        else if lo == 10 { 0x67 }
        else if lo == 11 { 0x2b }
        else if lo == 12 { 0xfe }
        else if lo == 13 { 0xd7 }
        else if lo == 14 { 0xab }
        else { 0x76 }
    } else if hi == 1 {
        if lo == 0 { 0xca }
        else if lo == 1 { 0x82 }
        else if lo == 2 { 0xc9 }
        else if lo == 3 { 0x7d }
        else if lo == 4 { 0xfa }
        else if lo == 5 { 0x59 }
        else if lo == 6 { 0x47 }
        else if lo == 7 { 0xf0 }
        else if lo == 8 { 0xad }
        else if lo == 9 { 0xd4 }
        else if lo == 10 { 0xa2 }
        else if lo == 11 { 0xaf }
        else if lo == 12 { 0x9c }
        else if lo == 13 { 0xa4 }
        else if lo == 14 { 0x72 }
        else { 0xc0 }
    } else if hi == 2 {
        if lo == 0 { 0xb7 }
        else if lo == 1 { 0xfd }
        else if lo == 2 { 0x93 }
        else if lo == 3 { 0x26 }
        else if lo == 4 { 0x36 }
        else if lo == 5 { 0x3f }
        else if lo == 6 { 0xf7 }
        else if lo == 7 { 0xcc }
        else if lo == 8 { 0x34 }
        else if lo == 9 { 0xa5 }
        else if lo == 10 { 0xe5 }
        else if lo == 11 { 0xf1 }
        else if lo == 12 { 0x71 }
        else if lo == 13 { 0xd8 }
        else if lo == 14 { 0x31 }
        else { 0x15 }
    } else if hi == 3 {
        if lo == 0 { 0x04 }
        else if lo == 1 { 0xc7 }
        else if lo == 2 { 0x23 }
        else if lo == 3 { 0xc3 }
        else if lo == 4 { 0x18 }
        else if lo == 5 { 0x96 }
        else if lo == 6 { 0x05 }
        else if lo == 7 { 0x9a }
        else if lo == 8 { 0x07 }
        else if lo == 9 { 0x12 }
        else if lo == 10 { 0x80 }
        else if lo == 11 { 0xe2 }
        else if lo == 12 { 0xeb }
        else if lo == 13 { 0x27 }
        else if lo == 14 { 0xb2 }
        else { 0x75 }
    } else if hi == 4 {
        if lo == 0 { 0x09 }
        else if lo == 1 { 0x83 }
        else if lo == 2 { 0x2c }
        else if lo == 3 { 0x1a }
        else if lo == 4 { 0x1b }
        else if lo == 5 { 0x6e }
        else if lo == 6 { 0x5a }
        else if lo == 7 { 0xa0 }
        else if lo == 8 { 0x52 }
        else if lo == 9 { 0x3b }
        else if lo == 10 { 0xd6 }
        else if lo == 11 { 0xb3 }
        else if lo == 12 { 0x29 }
        else if lo == 13 { 0xe3 }
        else if lo == 14 { 0x2f }
        else { 0x84 }
    } else if hi == 5 {
        if lo == 0 { 0x53 }
        else if lo == 1 { 0xd1 }
        else if lo == 2 { 0x00 }
        else if lo == 3 { 0xed }
        else if lo == 4 { 0x20 }
        else if lo == 5 { 0xfc }
        else if lo == 6 { 0xb1 }
        else if lo == 7 { 0x5b }
        else if lo == 8 { 0x6a }
        else if lo == 9 { 0xcb }
        else if lo == 10 { 0xbe }
        else if lo == 11 { 0x39 }
        else if lo == 12 { 0x4a }
        else if lo == 13 { 0x4c }
        else if lo == 14 { 0x58 }
        else { 0xcf }
    } else if hi == 6 {
        if lo == 0 { 0xd0 }
        else if lo == 1 { 0xef }
        else if lo == 2 { 0xaa }
        else if lo == 3 { 0xfb }
        else if lo == 4 { 0x43 }
        else if lo == 5 { 0x4d }
        else if lo == 6 { 0x33 }
        else if lo == 7 { 0x85 }
        else if lo == 8 { 0x45 }
        else if lo == 9 { 0xf9 }
        else if lo == 10 { 0x02 }
        else if lo == 11 { 0x7f }
        else if lo == 12 { 0x50 }
        else if lo == 13 { 0x3c }
        else if lo == 14 { 0x9f }
        else { 0xa8 }
    } else if hi == 7 {
        if lo == 0 { 0x51 }
        else if lo == 1 { 0xa3 }
        else if lo == 2 { 0x40 }
        else if lo == 3 { 0x8f }
        else if lo == 4 { 0x92 }
        else if lo == 5 { 0x9d }
        else if lo == 6 { 0x38 }
        else if lo == 7 { 0xf5 }
        else if lo == 8 { 0xbc }
        else if lo == 9 { 0xb6 }
        else if lo == 10 { 0xda }
        else if lo == 11 { 0x21 }
        else if lo == 12 { 0x10 }
        else if lo == 13 { 0xff }
        else if lo == 14 { 0xf3 }
        else { 0xd2 }
    } else if hi == 8 {
        if lo == 0 { 0xcd }
        else if lo == 1 { 0x0c }
        else if lo == 2 { 0x13 }
        else if lo == 3 { 0xec }
        else if lo == 4 { 0x5f }
        else if lo == 5 { 0x97 }
        else if lo == 6 { 0x44 }
        else if lo == 7 { 0x17 }
        else if lo == 8 { 0xc4 }
        else if lo == 9 { 0xa7 }
        else if lo == 10 { 0x7e }
        else if lo == 11 { 0x3d }
        else if lo == 12 { 0x64 }
        else if lo == 13 { 0x5d }
        else if lo == 14 { 0x19 }
        else { 0x73 }
    } else if hi == 9 {
        if lo == 0 { 0x60 }
        else if lo == 1 { 0x81 }
        else if lo == 2 { 0x4f }
        else if lo == 3 { 0xdc }
        else if lo == 4 { 0x22 }
        else if lo == 5 { 0x2a }
        else if lo == 6 { 0x90 }
        else if lo == 7 { 0x88 }
        else if lo == 8 { 0x46 }
        else if lo == 9 { 0xee }
        else if lo == 10 { 0xb8 }
        else if lo == 11 { 0x14 }
        else if lo == 12 { 0xde }
        else if lo == 13 { 0x5e }
        else if lo == 14 { 0x0b }
        else { 0xdb }
    } else if hi == 10 {
        if lo == 0 { 0xe0 }
        else if lo == 1 { 0x32 }
        else if lo == 2 { 0x3a }
        else if lo == 3 { 0x0a }
        else if lo == 4 { 0x49 }
        else if lo == 5 { 0x06 }
        else if lo == 6 { 0x24 }
        else if lo == 7 { 0x5c }
        else if lo == 8 { 0xc2 }
        else if lo == 9 { 0xd3 }
        else if lo == 10 { 0xac }
        else if lo == 11 { 0x62 }
        else if lo == 12 { 0x91 }
        else if lo == 13 { 0x95 }
        else if lo == 14 { 0xe4 }
        else { 0x79 }
    } else if hi == 11 {
        if lo == 0 { 0xe7 }
        else if lo == 1 { 0xc8 }
        else if lo == 2 { 0x37 }
        else if lo == 3 { 0x6d }
        else if lo == 4 { 0x8d }
        else if lo == 5 { 0xd5 }
        else if lo == 6 { 0x4e }
        else if lo == 7 { 0xa9 }
        else if lo == 8 { 0x6c }
        else if lo == 9 { 0x56 }
        else if lo == 10 { 0xf4 }
        else if lo == 11 { 0xea }
        else if lo == 12 { 0x65 }
        else if lo == 13 { 0x7a }
        else if lo == 14 { 0xae }
        else { 0x08 }
    } else if hi == 12 {
        if lo == 0 { 0xba }
        else if lo == 1 { 0x78 }
        else if lo == 2 { 0x25 }
        else if lo == 3 { 0x2e }
        else if lo == 4 { 0x1c }
        else if lo == 5 { 0xa6 }
        else if lo == 6 { 0xb4 }
        else if lo == 7 { 0xc6 }
        else if lo == 8 { 0xe8 }
        else if lo == 9 { 0xdd }
        else if lo == 10 { 0x74 }
        else if lo == 11 { 0x1f }
        else if lo == 12 { 0x4b }
        else if lo == 13 { 0xbd }
        else if lo == 14 { 0x8b }
        else { 0x8a }
    } else if hi == 13 {
        if lo == 0 { 0x70 }
        else if lo == 1 { 0x3e }
        else if lo == 2 { 0xb5 }
        else if lo == 3 { 0x66 }
        else if lo == 4 { 0x48 }
        else if lo == 5 { 0x03 }
        else if lo == 6 { 0xf6 }
        else if lo == 7 { 0x0e }
        else if lo == 8 { 0x61 }
        else if lo == 9 { 0x35 }
        else if lo == 10 { 0x57 }
        else if lo == 11 { 0xb9 }
        else if lo == 12 { 0x86 }
        else if lo == 13 { 0xc1 }
        else if lo == 14 { 0x1d }
        else { 0x9e }
    } else if hi == 14 {
        if lo == 0 { 0xe1 }
        else if lo == 1 { 0xf8 }
        else if lo == 2 { 0x98 }
        else if lo == 3 { 0x11 }
        else if lo == 4 { 0x69 }
        else if lo == 5 { 0xd9 }
        else if lo == 6 { 0x8e }
        else if lo == 7 { 0x94 }
        else if lo == 8 { 0x9b }
        else if lo == 9 { 0x1e }
        else if lo == 10 { 0x87 }
        else if lo == 11 { 0xe9 }
        else if lo == 12 { 0xce }
        else if lo == 13 { 0x55 }
        else if lo == 14 { 0x28 }
        else { 0xdf }
    } else {
        if lo == 0 { 0x8c }
        else if lo == 1 { 0xa1 }
        else if lo == 2 { 0x89 }
        else if lo == 3 { 0x0d }
        else if lo == 4 { 0xbf }
        else if lo == 5 { 0xe6 }
        else if lo == 6 { 0x42 }
        else if lo == 7 { 0x68 }
        else if lo == 8 { 0x41 }
        else if lo == 9 { 0x99 }
        else if lo == 10 { 0x2d }
        else if lo == 11 { 0x0f }
        else if lo == 12 { 0xb0 }
        else if lo == 13 { 0x54 }
        else if lo == 14 { 0xbb }
        else { 0x16 }
    }
}

/// The inverse AES S-box as a function on bytes.
pub open spec fn inv_sbox_spec(b: u8) -> u8 {
    let hi: u8 = b >> 4;
    let lo: u8 = b & 0x0f;
    if hi == 0 {
        if lo == 0 { 0x52 }
        else if lo == 1 { 0x09 }
        else if lo == 2 { 0x6a }
        else if lo == 3 { 0xd5 }
        else if lo == 4 { 0x30 }
        else if lo == 5 { 0x36 }
        else if lo == 6 { 0xa5 }
        else if lo == 7 { 0x38 }
        else if lo == 8 { 0xbf }
        else if lo == 9 { 0x40 }
        else if lo == 10 { 0xa3 }
        else if lo == 11 { 0x9e }
        else if lo == 12 { 0x81 }
        else if lo == 13 { 0xf3 }
        else if lo == 14 { 0xd7 }
        else { 0xfb }
    } else if hi == 1 {
        if lo == 0 { 0x7c }
        else if lo == 1 { 0xe3 }
        else if lo == 2 { 0x39 }
        else if lo == 3 { 0x82 }
        else if lo == 4 { 0x9b }
        else if lo == 5 { 0x2f }
        else if lo == 6 { 0xff }
        else if lo == 7 { 0x87 }
        else if lo == 8 { 0x34 }
        else if lo == 9 { 0x8e }
        else if lo == 10 { 0x43 }
        else if lo == 11 { 0x44 }
        else if lo == 12 { 0xc4 }
        else if lo == 13 { 0xde }
        else if lo == 14 { 0xe9 }
        else { 0xcb }
    } else if hi == 2 {
        if lo == 0 { 0x54 }
        else if lo == 1 { 0x7b }
        else if lo == 2 { 0x94 }
        else if lo == 3 { 0x32 }
        else if lo == 4 { 0xa6 }
        else if lo == 5 { 0xc2 }
        else if lo == 6 { 0x23 }
        else if lo == 7 { 0x3d }
        else if lo == 8 { 0xee }
        else if lo == 9 { 0x4c }
        else if lo == 10 { 0x95 }
        else if lo == 11 { 0x0b }
        else if lo == 12 { 0x42 }
        else if lo == 13 { 0xfa }
        else if lo == 14 { 0xc3 }
        else { 0x4e }
    } else if hi == 3 {
        if lo == 0 { 0x08 }
        else if lo == 1 { 0x2e }
        else if lo == 2 { 0xa1 }
        else if lo == 3 { 0x66 }
        else if lo == 4 { 0x28 }
        else if lo == 5 { 0xd9 }
        else if lo == 6 { 0x24 }
        else if lo == 7 { 0xb2 }
        else if lo == 8 { 0x76 }
        else if lo == 9 { 0x5b }
        else if lo == 10 { 0xa2 }
        else if lo == 11 { 0x49 }
        else if lo == 12 { 0x6d }
        else if lo == 13 { 0x8b }
        else if lo == 14 { 0xd1 }
        else { 0x25 }
    } else if hi == 4 {
        if lo == 0 { 0x72 }
        else if lo == 1 { 0xf8 }
        else if lo == 2 { 0xf6 }
        else if lo == 3 { 0x64 }
        else if lo == 4 { 0x86 }
        else if lo == 5 { 0x68 }
        else if lo == 6 { 0x98 }
        else if lo == 7 { 0x16 }
        else if lo == 8 { 0xd4 }
        else if lo == 9 { 0xa4 }
        else if lo == 10 { 0x5c }
        else if lo == 11 { 0xcc }
        else if lo == 12 { 0x5d }
        else if lo == 13 { 0x65 }
        else if lo == 14 { 0xb6 }
        else { 0x92 }
    } else if hi == 5 {
        if lo == 0 { 0x6c }
        else if lo == 1 { 0x70 }
        else if lo == 2 { 0x48 }
        else if lo == 3 { 0x50 }
        else if lo == 4 { 0xfd }
        else if lo == 5 { 0xed }
        else if lo == 6 { 0xb9 }
        else if lo == 7 { 0xda }
        else if lo == 8 { 0x5e }
        else if lo == 9 { 0x15 }
        else if lo == 10 { 0x46 }
        else if lo == 11 { 0x57 }
        else if lo == 12 { 0xa7 }
        else if lo == 13 { 0x8d }
        else if lo == 14 { 0x9d }
        else { 0x84 }
    } else if hi == 6 {
        if lo == 0 { 0x90 }
        else if lo == 1 { 0xd8 }
        else if lo == 2 { 0xab }
        else if lo == 3 { 0x00 }
        else if lo == 4 { 0x8c }
        else if lo == 5 { 0xbc }
        else if lo == 6 { 0xd3 }
        else if lo == 7 { 0x0a }
        else if lo == 8 { 0xf7 }
        else if lo == 9 { 0xe4 }
        else if lo == 10 { 0x58 }
        else if lo == 11 { 0x05 }
        else if lo == 12 { 0xb8 }
        else if lo == 13 { 0xb3 }
        else if lo == 14 { 0x45 }
        else { 0x06 }
    } else if hi == 7 {
        if lo == 0 { 0xd0 }
        else if lo == 1 { 0x2c }
        else if lo == 2 { 0x1e }
        else if lo == 3 { 0x8f }
        else if lo == 4 { 0xca }
        else if lo == 5 { 0x3f }
        else if lo == 6 { 0x0f }
        else if lo == 7 { 0x02 }
        else if lo == 8 { 0xc1 }
        else if lo == 9 { 0xaf }
        else if lo == 10 { 0xbd }
        else if lo == 11 { 0x03 }
        else if lo == 12 { 0x01 }
        else if lo == 13 { 0x13 }
        else if lo == 14 { 0x8a }
        else { 0x6b }
    } else if hi == 8 {
        if lo == 0 { 0x3a }
        else if lo == 1 { 0x91 }
        else if lo == 2 { 0x11 }
        else if lo == 3 { 0x41 }
        else if lo == 4 { 0x4f }
        else if lo == 5 { 0x67 }
        else if lo == 6 { 0xdc }
        else if lo == 7 { 0xea }
        else if lo == 8 { 0x97 }
        else if lo == 9 { 0xf2 }
        else if lo == 10 { 0xcf }
        else if lo == 11 { 0xce }
        else if lo == 12 { 0xf0 }
        else if lo == 13 { 0xb4 }
        else if lo == 14 { 0xe6 }
        else { 0x73 }
    } else if hi == 9 {
        if lo == 0 { 0x96 }
        else if lo == 1 { 0xac }
        else if lo == 2 { 0x74 }
        else if lo == 3 { 0x22 }
        else if lo == 4 { 0xe7 }
        else if lo == 5 { 0xad }
        else if lo == 6 { 0x35 }
        else if lo == 7 { 0x85 }
        else if lo == 8 { 0xe2 }
        else if lo == 9 { 0xf9 }
        else if lo == 10 { 0x37 }
        else if lo == 11 { 0xe8 }
        else if lo == 12 { 0x1c }
        else if lo == 13 { 0x75 }
        else if lo == 14 { 0xdf }
        else { 0x6e }
    } else if hi == 10 {
        if lo == 0 { 0x47 }
        else if lo == 1 { 0xf1 }
        else if lo == 2 { 0x1a }
        else if lo == 3 { 0x71 }
        else if lo == 4 { 0x1d }
        else if lo == 5 { 0x29 }
        else if lo == 6 { 0xc5 }
        else if lo == 7 { 0x89 }
        else if lo == 8 { 0x6f }
        else if lo == 9 { 0xb7 }
        else if lo == 10 { 0x62 }
        else if lo == 11 { 0x0e }
        else if lo == 12 { 0xaa }
        else if lo == 13 { 0x18 }
        else if lo == 14 { 0xbe }
        else { 0x1b }
    } else if hi == 11 {
        if lo == 0 { 0xfc }
        else if lo == 1 { 0x56 }
        else if lo == 2 { 0x3e }
        else if lo == 3 { 0x4b }
        else if lo == 4 { 0xc6 }
        else if lo == 5 { 0xd2 }
        else if lo == 6 { 0x79 }
        else if lo == 7 { 0x20 }
        else if lo == 8 { 0x9a }
        else if lo == 9 { 0xdb }
        else if lo == 10 { 0xc0 }
        else if lo == 11 { 0xfe }
        else if lo == 12 { 0x78 }
        else if lo == 13 { 0xcd }
        else if lo == 14 { 0x5a }
        else { 0xf4 }
    } else if hi == 12 {
        if lo == 0 { 0x1f }
        else if lo == 1 { 0xdd }
        else if lo == 2 { 0xa8 }
        else if lo == 3 { 0x33 }
        else if lo == 4 { 0x88 }
        else if lo == 5 { 0x07 }
        else if lo == 6 { 0xc7 }
        else if lo == 7 { 0x31 }
        else if lo == 8 { 0xb1 }
        else if lo == 9 { 0x12 }
        else if lo == 10 { 0x10 }
        else if lo == 11 { 0x59 }
        else if lo == 12 { 0x27 }
        else if lo == 13 { 0x80 }
        else if lo == 14 { 0xec }
        else { 0x5f }
    } else if hi == 13 {
        if lo == 0 { 0x60 }
        else if lo == 1 { 0x51 }
        else if lo == 2 { 0x7f }
        else if lo == 3 { 0xa9 }
        else if lo == 4 { 0x19 }
        else if lo == 5 { 0xb5 }
        else if lo == 6 { 0x4a }
        else if lo == 7 { 0x0d }
        else if lo == 8 { 0x2d }
        else if lo == 9 { 0xe5 }
        else if lo == 10 { 0x7a }
        else if lo == 11 { 0x9f }
        else if lo == 12 { 0x93 }
        else if lo == 13 { 0xc9 }
        else if lo == 14 { 0x9c }
        else { 0xef }
    } else if hi == 14 {
        if lo == 0 { 0xa0 }
        else if lo == 1 { 0xe0 }
        else if lo == 2 { 0x3b }
        else if lo == 3 { 0x4d }
        else if lo == 4 { 0xae }
        else if lo == 5 { 0x2a }
        else if lo == 6 { 0xf5 }
        else if lo == 7 { 0xb0 }
        else if lo == 8 { 0xc8 }
        else if lo == 9 { 0xeb }
        else if lo == 10 { 0xbb }
        else if lo == 11 { 0x3c }
        else if lo == 12 { 0x83 }
        else if lo == 13 { 0x53 }
        else if lo == 14 { 0x99 }
        else { 0x61 }
    } else {
        if lo == 0 { 0x17 }
        else if lo == 1 { 0x2b }
        else if lo == 2 { 0x04 }
        else if lo == 3 { 0x7e }
        else if lo == 4 { 0xba }
        else if lo == 5 { 0x77 }
        else if lo == 6 { 0xd6 }
        else if lo == 7 { 0x26 }
        else if lo == 8 { 0xe1 }
        else if lo == 9 { 0x69 }
        else if lo == 10 { 0x14 }
        else if lo == 11 { 0x63 }
        else if lo == 12 { 0x55 }
        else if lo == 13 { 0x21 }
        else if lo == 14 { 0x0c }
        else { 0x7d }
    }
}

/// S-box lookup by value.
pub fn sbox_byte(b: u8) -> (r: u8)
    ensures
        r == sbox_spec(b),
{
    let hi: u8 = b >> 4;
    let lo: u8 = b & 0x0f;
    if hi == 0 {
        if lo == 0 { 0x63 }
        else if lo == 1 { 0x7c }
        else if lo == 2 { 0x77 }
        else if lo == 3 { 0x7b }
        else if lo == 4 { 0xf2 }
        else if lo == 5 { 0x6b }
        else if lo == 6 { 0x6f }
        else if lo == 7 { 0xc5 }
        else if lo == 8 { 0x30 }
        else if lo == 9 { 0x01 }
        else if lo == 10 { 0x67 }
        else if lo == 11 { 0x2b }
        else if lo == 12 { 0xfe }
        else if lo == 13 { 0xd7 }
        else if lo == 14 { 0xab }
        else { 0x76 }
    } else if hi == 1 {
        if lo == 0 { 0xca }
        else if lo == 1 { 0x82 }
        else if lo == 2 { 0xc9 }
        else if lo == 3 { 0x7d }
        else if lo == 4 { 0xfa }
        else if lo == 5 { 0x59 }
        else if lo == 6 { 0x47 }
        else if lo == 7 { 0xf0 }
        else if lo == 8 { 0xad }
        else if lo == 9 { 0xd4 }
        else if lo == 10 { 0xa2 }
        else if lo == 11 { 0xaf }
        else if lo == 12 { 0x9c }
        else if lo == 13 { 0xa4 }
        else if lo == 14 { 0x72 }
        else { 0xc0 }
    } else if hi == 2 {
        if lo == 0 { 0xb7 }
        else if lo == 1 { 0xfd }
        else if lo == 2 { 0x93 }
        else if lo == 3 { 0x26 }
        else if lo == 4 { 0x36 }
        else if lo == 5 { 0x3f }
        else if lo == 6 { 0xf7 }
        else if lo == 7 { 0xcc }
        else if lo == 8 { 0x34 }
        else if lo == 9 { 0xa5 }
        else if lo == 10 { 0xe5 }
        else if lo == 11 { 0xf1 }
        else if lo == 12 { 0x71 }
        else if lo == 13 { 0xd8 }
        else if lo == 14 { 0x31 }
        else { 0x15 }
    } else if hi == 3 {
        if lo == 0 { 0x04 }
        else if lo == 1 { 0xc7 }
        else if lo == 2 { 0x23 }
        else if lo == 3 { 0xc3 }
        else if lo == 4 { 0x18 }
        else if lo == 5 { 0x96 }
        else if lo == 6 { 0x05 }
        else if lo == 7 { 0x9a }
        else if lo == 8 { 0x07 }
        else if lo == 9 { 0x12 }
        else if lo == 10 { 0x80 }
        else if lo == 11 { 0xe2 }
        else if lo == 12 { 0xeb }
        else if lo == 13 { 0x27 }
        else if lo == 14 { 0xb2 }
        else { 0x75 }
    } else if hi == 4 {
        if lo == 0 { 0x09 }
        else if lo == 1 { 0x83 }
        else if lo == 2 { 0x2c }
        else if lo == 3 { 0x1a }
        else if lo == 4 { 0x1b }
        else if lo == 5 { 0x6e }
        else if lo == 6 { 0x5a }
        else if lo == 7 { 0xa0 }
        else if lo == 8 { 0x52 }
        else if lo == 9 { 0x3b }
        else if lo == 10 { 0xd6 }
        else if lo == 11 { 0xb3 }
        else if lo == 12 { 0x29 }
        else if lo == 13 { 0xe3 }
        else if lo == 14 { 0x2f }
        else { 0x84 }
    } else if hi == 5 {
        if lo == 0 { 0x53 }
        else if lo == 1 { 0xd1 }
        else if lo == 2 { 0x00 }
        else if lo == 3 { 0xed }
        else if lo == 4 { 0x20 }
        else if lo == 5 { 0xfc }
        else if lo == 6 { 0xb1 }
        else if lo == 7 { 0x5b }
        else if lo == 8 { 0x6a }
        else if lo == 9 { 0xcb }
        else if lo == 10 { 0xbe }
        else if lo == 11 { 0x39 }
        else if lo == 12 { 0x4a }
        else if lo == 13 { 0x4c }
        else if lo == 14 { 0x58 }
        else { 0xcf }
    } else if hi == 6 {
        if lo == 0 { 0xd0 }
        else if lo == 1 { 0xef }
        else if lo == 2 { 0xaa }
        else if lo == 3 { 0xfb }
        else if lo == 4 { 0x43 }
        else if lo == 5 { 0x4d }
        else if lo == 6 { 0x33 }
        else if lo == 7 { 0x85 }
        else if lo == 8 { 0x45 }
        else if lo == 9 { 0xf9 }
        else if lo == 10 { 0x02 }
        else if lo == 11 { 0x7f }
        else if lo == 12 { 0x50 }
        else if lo == 13 { 0x3c }
        else if lo == 14 { 0x9f }
        else { 0xa8 }
    } else if hi == 7 {
        if lo == 0 { 0x51 }
        else if lo == 1 { 0xa3 }
        else if lo == 2 { 0x40 }
        else if lo == 3 { 0x8f }
        else if lo == 4 { 0x92 }
        else if lo == 5 { 0x9d }
        else if lo == 6 { 0x38 }
        else if lo == 7 { 0xf5 }
        else if lo == 8 { 0xbc }
        else if lo == 9 { 0xb6 }
        else if lo == 10 { 0xda }
        else if lo == 11 { 0x21 }
        else if lo == 12 { 0x10 }
        else if lo == 13 { 0xff }
        else if lo == 14 { 0xf3 }
        else { 0xd2 }
    } else if hi == 8 {
        if lo == 0 { 0xcd }
        else if lo == 1 { 0x0c }
        else if lo == 2 { 0x13 }
        else if lo == 3 { 0xec }
        else if lo == 4 { 0x5f }
        else if lo == 5 { 0x97 }
        else if lo == 6 { 0x44 }
        else if lo == 7 { 0x17 }
        else if lo == 8 { 0xc4 }
        else if lo == 9 { 0xa7 }
        else if lo == 10 { 0x7e }
        else if lo == 11 { 0x3d }
        else if lo == 12 { 0x64 }
        else if lo == 13 { 0x5d }
        else if lo == 14 { 0x19 }
        else { 0x73 }
    } else if hi == 9 {
        if lo == 0 { 0x60 }
        else if lo == 1 { 0x81 }
        else if lo == 2 { 0x4f }
        else if lo == 3 { 0xdc }
        else if lo == 4 { 0x22 }
        else if lo == 5 { 0x2a }
        else if lo == 6 { 0x90 }
        else if lo == 7 { 0x88 }
        else if lo == 8 { 0x46 }
        else if lo == 9 { 0xee }
        else if lo == 10 { 0xb8 }
        else if lo == 11 { 0x14 }
        else if lo == 12 { 0xde }
        else if lo == 13 { 0x5e }
        else if lo == 14 { 0x0b }
        else { 0xdb }
    } else if hi == 10 {
        if lo == 0 { 0xe0 }
        else if lo == 1 { 0x32 }
        else if lo == 2 { 0x3a }
        else if lo == 3 { 0x0a }
        else if lo == 4 { 0x49 }
        else if lo == 5 { 0x06 }
        else if lo == 6 { 0x24 }
        else if lo == 7 { 0x5c }
        else if lo == 8 { 0xc2 }
        else if lo == 9 { 0xd3 }
        else if lo == 10 { 0xac }
        else if lo == 11 { 0x62 }
        else if lo == 12 { 0x91 }
        else if lo == 13 { 0x95 }
        else if lo == 14 { 0xe4 }
        else { 0x79 }
    } else if hi == 11 {
        if lo == 0 { 0xe7 }
        else if lo == 1 { 0xc8 }
        else if lo == 2 { 0x37 }
        else if lo == 3 { 0x6d }
        else if lo == 4 { 0x8d }
        else if lo == 5 { 0xd5 }
        else if lo == 6 { 0x4e }
        else if lo == 7 { 0xa9 }
        else if lo == 8 { 0x6c }
        else if lo == 9 { 0x56 }
        else if lo == 10 { 0xf4 }
        else if lo == 11 { 0xea }
        else if lo == 12 { 0x65 }
        else if lo == 13 { 0x7a }
        else if lo == 14 { 0xae }
        else { 0x08 }
    } else if hi == 12 {
        if lo == 0 { 0xba }
        else if lo == 1 { 0x78 }
        else if lo == 2 { 0x25 }
        else if lo == 3 { 0x2e }
        else if lo == 4 { 0x1c }
        else if lo == 5 { 0xa6 }
        else if lo == 6 { 0xb4 }
        else if lo == 7 { 0xc6 }
        else if lo == 8 { 0xe8 }
        else if lo == 9 { 0xdd }
        else if lo == 10 { 0x74 }
        else if lo == 11 { 0x1f }
        else if lo == 12 { 0x4b }
        else if lo == 13 { 0xbd }
        else if lo == 14 { 0x8b }
        else { 0x8a }
    } else if hi == 13 {
        if lo == 0 { 0x70 }
        else if lo == 1 { 0x3e }
        else if lo == 2 { 0xb5 }
        else if lo == 3 { 0x66 }
        else if lo == 4 { 0x48 }
        else if lo == 5 { 0x03 }
        else if lo == 6 { 0xf6 }
        else if lo == 7 { 0x0e }
        else if lo == 8 { 0x61 }
        else if lo == 9 { 0x35 }
        else if lo == 10 { 0x57 }
        else if lo == 11 { 0xb9 }
        else if lo == 12 { 0x86 }
        else if lo == 13 { 0xc1 }
        else if lo == 14 { 0x1d }
        else { 0x9e }
    } else if hi == 14 {
        if lo == 0 { 0xe1 }
        else if lo == 1 { 0xf8 }
        else if lo == 2 { 0x98 }
        else if lo == 3 { 0x11 }
        else if lo == 4 { 0x69 }
        else if lo == 5 { 0xd9 }
        else if lo == 6 { 0x8e }
        else if lo == 7 { 0x94 }
        else if lo == 8 { 0x9b }
        else if lo == 9 { 0x1e }
        else if lo == 10 { 0x87 }
        else if lo == 11 { 0xe9 }
        else if lo == 12 { 0xce }
        else if lo == 13 { 0x55 }
        else if lo == 14 { 0x28 }
        else { 0xdf }
    } else {
        if lo == 0 { 0x8c }
        else if lo == 1 { 0xa1 }
        else if lo == 2 { 0x89 }
        else if lo == 3 { 0x0d }
        else if lo == 4 { 0xbf }
        else if lo == 5 { 0xe6 }
        else if lo == 6 { 0x42 }
        else if lo == 7 { 0x68 }
        else if lo == 8 { 0x41 }
        else if lo == 9 { 0x99 }
        else if lo == 10 { 0x2d }
        else if lo == 11 { 0x0f }
        else if lo == 12 { 0xb0 }
        else if lo == 13 { 0x54 }
        else if lo == 14 { 0xbb }
        else { 0x16 }
    }
}

/// Inverse S-box lookup by value.
pub fn inv_sbox_byte(b: u8) -> (r: u8)
    ensures
        r == inv_sbox_spec(b),
{
    let hi: u8 = b >> 4;
    let lo: u8 = b & 0x0f;
    if hi == 0 {
        if lo == 0 { 0x52 }
        else if lo == 1 { 0x09 }
        else if lo == 2 { 0x6a }
        else if lo == 3 { 0xd5 }
        else if lo == 4 { 0x30 }
        else if lo == 5 { 0x36 }
        else if lo == 6 { 0xa5 }
        else if lo == 7 { 0x38 }
        else if lo == 8 { 0xbf }
        else if lo == 9 { 0x40 }
        else if lo == 10 { 0xa3 }
        else if lo == 11 { 0x9e }
        else if lo == 12 { 0x81 }
        else if lo == 13 { 0xf3 }
        else if lo == 14 { 0xd7 }
        else { 0xfb }
    } else if hi == 1 {
        if lo == 0 { 0x7c }
        else if lo == 1 { 0xe3 }
        else if lo == 2 { 0x39 }
        else if lo == 3 { 0x82 }
        else if lo == 4 { 0x9b }
        else if lo == 5 { 0x2f }
        else if lo == 6 { 0xff }
        else if lo == 7 { 0x87 }
        else if lo == 8 { 0x34 }
        else if lo == 9 { 0x8e }
        else if lo == 10 { 0x43 }
        else if lo == 11 { 0x44 }
        else if lo == 12 { 0xc4 }
        else if lo == 13 { 0xde }
        else if lo == 14 { 0xe9 }
        else { 0xcb }
    } else if hi == 2 {
        if lo == 0 { 0x54 }
        else if lo == 1 { 0x7b }
        else if lo == 2 { 0x94 }
        else if lo == 3 { 0x32 }
        else if lo == 4 { 0xa6 }
        else if lo == 5 { 0xc2 }
        else if lo == 6 { 0x23 }
        else if lo == 7 { 0x3d }
        else if lo == 8 { 0xee }
        else if lo == 9 { 0x4c }
        else if lo == 10 { 0x95 }
        else if lo == 11 { 0x0b }
        else if lo == 12 { 0x42 }
        else if lo == 13 { 0xfa }
        else if lo == 14 { 0xc3 }
        else { 0x4e }
    } else if hi == 3 {
        if lo == 0 { 0x08 }
        else if lo == 1 { 0x2e }
        else if lo == 2 { 0xa1 }
        else if lo == 3 { 0x66 }
        else if lo == 4 { 0x28 }
        else if lo == 5 { 0xd9 }
        else if lo == 6 { 0x24 }
        else if lo == 7 { 0xb2 }
        else if lo == 8 { 0x76 }
        else if lo == 9 { 0x5b }
        else if lo == 10 { 0xa2 }
        else if lo == 11 { 0x49 }
        else if lo == 12 { 0x6d }
        else if lo == 13 { 0x8b }
        else if lo == 14 { 0xd1 }
        else { 0x25 }
    } else if hi == 4 {
        if lo == 0 { 0x72 }
        else if lo == 1 { 0xf8 }
        else if lo == 2 { 0xf6 }
        else if lo == 3 { 0x64 }
        else if lo == 4 { 0x86 }
        else if lo == 5 { 0x68 }
        else if lo == 6 { 0x98 }
        else if lo == 7 { 0x16 }
        else if lo == 8 { 0xd4 }
        else if lo == 9 { 0xa4 }
        else if lo == 10 { 0x5c }
        else if lo == 11 { 0xcc }
        else if lo == 12 { 0x5d }
        else if lo == 13 { 0x65 }
        else if lo == 14 { 0xb6 }
        else { 0x92 }
    } else if hi == 5 {
        if lo == 0 { 0x6c }
        else if lo == 1 { 0x70 }
        else if lo == 2 { 0x48 }
        else if lo == 3 { 0x50 }
        else if lo == 4 { 0xfd }
        else if lo == 5 { 0xed }
        else if lo == 6 { 0xb9 }
        else if lo == 7 { 0xda }
        else if lo == 8 { 0x5e }
        else if lo == 9 { 0x15 }
        else if lo == 10 { 0x46 }
        else if lo == 11 { 0x57 }
        else if lo == 12 { 0xa7 }
        else if lo == 13 { 0x8d }
        else if lo == 14 { 0x9d }
        else { 0x84 }
    } else if hi == 6 {
        if lo == 0 { 0x90 }
        else if lo == 1 { 0xd8 }
        else if lo == 2 { 0xab }
        else if lo == 3 { 0x00 }
        else if lo == 4 { 0x8c }
        else if lo == 5 { 0xbc }
        else if lo == 6 { 0xd3 }
        else if lo == 7 { 0x0a }
        else if lo == 8 { 0xf7 }
        else if lo == 9 { 0xe4 }
        else if lo == 10 { 0x58 }
        else if lo == 11 { 0x05 }
        else if lo == 12 { 0xb8 }
        else if lo == 13 { 0xb3 }
        else if lo == 14 { 0x45 }
        else { 0x06 }
    } else if hi == 7 {
        if lo == 0 { 0xd0 }
        else if lo == 1 { 0x2c }
        else if lo == 2 { 0x1e }
        else if lo == 3 { 0x8f }
        else if lo == 4 { 0xca }
        else if lo == 5 { 0x3f }
        else if lo == 6 { 0x0f }
        else if lo == 7 { 0x02 }
        else if lo == 8 { 0xc1 }
        else if lo == 9 { 0xaf }
        else if lo == 10 { 0xbd }
        else if lo == 11 { 0x03 }
        else if lo == 12 { 0x01 }
        else if lo == 13 { 0x13 }
        else if lo == 14 { 0x8a }
        else { 0x6b }
    } else if hi == 8 {
        if lo == 0 { 0x3a }
        else if lo == 1 { 0x91 }
        else if lo == 2 { 0x11 }
        else if lo == 3 { 0x41 }
        else if lo == 4 { 0x4f }
        else if lo == 5 { 0x67 }
        else if lo == 6 { 0xdc }
        else if lo == 7 { 0xea }
        else if lo == 8 { 0x97 }
        else if lo == 9 { 0xf2 }
        else if lo == 10 { 0xcf }
        else if lo == 11 { 0xce }
        else if lo == 12 { 0xf0 }
        else if lo == 13 { 0xb4 }
        else if lo == 14 { 0xe6 }
        else { 0x73 }
    } else if hi == 9 {
        if lo == 0 { 0x96 }
        else if lo == 1 { 0xac }
        else if lo == 2 { 0x74 }
        else if lo == 3 { 0x22 }
        else if lo == 4 { 0xe7 }
        else if lo == 5 { 0xad }
        else if lo == 6 { 0x35 }
        else if lo == 7 { 0x85 }
        else if lo == 8 { 0xe2 }
        else if lo == 9 { 0xf9 }
        else if lo == 10 { 0x37 }
        else if lo == 11 { 0xe8 }
        else if lo == 12 { 0x1c }
        else if lo == 13 { 0x75 }
        else if lo == 14 { 0xdf }
        else { 0x6e }
    } else if hi == 10 {
        if lo == 0 { 0x47 }
        else if lo == 1 { 0xf1 }
        else if lo == 2 { 0x1a }
        else if lo == 3 { 0x71 }
        else if lo == 4 { 0x1d }
        else if lo == 5 { 0x29 }
        else if lo == 6 { 0xc5 }
        else if lo == 7 { 0x89 }
        else if lo == 8 { 0x6f }
        else if lo == 9 { 0xb7 }
        else if lo == 10 { 0x62 }
        else if lo == 11 { 0x0e }
        else if lo == 12 { 0xaa }
        else if lo == 13 { 0x18 }
        else if lo == 14 { 0xbe }
        else { 0x1b }
    } else if hi == 11 {
        if lo == 0 { 0xfc }
        else if lo == 1 { 0x56 }
        else if lo == 2 { 0x3e }
        else if lo == 3 { 0x4b }
        else if lo == 4 { 0xc6 }
        else if lo == 5 { 0xd2 }
        else if lo == 6 { 0x79 }
        else if lo == 7 { 0x20 }
        else if lo == 8 { 0x9a }
        else if lo == 9 { 0xdb }
        else if lo == 10 { 0xc0 }
        else if lo == 11 { 0xfe }
        else if lo == 12 { 0x78 }
        else if lo == 13 { 0xcd }
        else if lo == 14 { 0x5a }
        else { 0xf4 }
    } else if hi == 12 {
        if lo == 0 { 0x1f }
        else if lo == 1 { 0xdd }
        else if lo == 2 { 0xa8 }
        else if lo == 3 { 0x33 }
        else if lo == 4 { 0x88 }
        else if lo == 5 { 0x07 }
        else if lo == 6 { 0xc7 }
        else if lo == 7 { 0x31 }
        else if lo == 8 { 0xb1 }
        else if lo == 9 { 0x12 }
        else if lo == 10 { 0x10 }
        else if lo == 11 { 0x59 }
        else if lo == 12 { 0x27 }
        else if lo == 13 { 0x80 }
        else if lo == 14 { 0xec }
        else { 0x5f }
    } else if hi == 13 {
        if lo == 0 { 0x60 }
        else if lo == 1 { 0x51 }
        else if lo == 2 { 0x7f }
        else if lo == 3 { 0xa9 }
        else if lo == 4 { 0x19 }
        else if lo == 5 { 0xb5 }
        else if lo == 6 { 0x4a }
        else if lo == 7 { 0x0d }
        else if lo == 8 { 0x2d }
        else if lo == 9 { 0xe5 }
        else if lo == 10 { 0x7a }
        else if lo == 11 { 0x9f }
        else if lo == 12 { 0x93 }
        else if lo == 13 { 0xc9 }
        else if lo == 14 { 0x9c }
        else { 0xef }
    } else if hi == 14 {
        if lo == 0 { 0xa0 }
        else if lo == 1 { 0xe0 }
        else if lo == 2 { 0x3b }
        else if lo == 3 { 0x4d }
        else if lo == 4 { 0xae }
        else if lo == 5 { 0x2a }
        else if lo == 6 { 0xf5 }
        else if lo == 7 { 0xb0 }
        else if lo == 8 { 0xc8 }
        else if lo == 9 { 0xeb }
        else if lo == 10 { 0xbb }
        else if lo == 11 { 0x3c }
        else if lo == 12 { 0x83 }
        else if lo == 13 { 0x53 }
        else if lo == 14 { 0x99 }
        else { 0x61 }
    } else {
        if lo == 0 { 0x17 }
        else if lo == 1 { 0x2b }
        else if lo == 2 { 0x04 }
        else if lo == 3 { 0x7e }
        else if lo == 4 { 0xba }
        else if lo == 5 { 0x77 }
        else if lo == 6 { 0xd6 }
        else if lo == 7 { 0x26 }
        else if lo == 8 { 0xe1 }
        else if lo == 9 { 0x69 }
        else if lo == 10 { 0x14 }
        else if lo == 11 { 0x63 }
        else if lo == 12 { 0x55 }
        else if lo == 13 { 0x21 }
        else if lo == 14 { 0x0c }
        else { 0x7d }
    }
}

/// S-box substitution in place.
pub fn s_box(b: &mut u8)
    ensures
        *final(b) == sbox_spec(*old(b)),
{
    *b = sbox_byte(*b);
}

/// Inverse S-box substitution in place.
pub fn inv_s_box(b: &mut u8)
    ensures
        *final(b) == inv_sbox_spec(*old(b)),
{
    *b = inv_sbox_byte(*b);
}

/// The inverse S-box undoes the S-box on the given byte.
pub proof fn lemma_inv_sbox_of_sbox_byte(b: u8)
    by (bit_vector)
    ensures
        inv_sbox_spec(sbox_spec(b)) == b,
{
}

/// The inverse S-box undoes the S-box on every byte.
pub proof fn lemma_inv_sbox_of_sbox()
    ensures
        forall|b: u8| inv_sbox_spec(#[trigger] sbox_spec(b)) == b,
{
    assert forall|b: u8| inv_sbox_spec(#[trigger] sbox_spec(b)) == b by {
        lemma_inv_sbox_of_sbox_byte(b);
    }
}

} // verus!
