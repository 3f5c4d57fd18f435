//! AES block cipher core: key expansion and single-block encryption and
//! decryption over 128-bit blocks, for 128-, 192- and 256-bit keys.
//!
//! The crate proves, among other things, that decryption inverts encryption
//! for every valid key and every 16-byte block.

pub mod cipher;
pub mod gf;
pub mod sbox;
pub mod state;
pub mod words;
