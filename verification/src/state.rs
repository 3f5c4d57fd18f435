//! The cipher state: a 4 x 4 grid of bytes holding one 128-bit block, and
//! the four round transforms with their inverses.
//!
//! The grid is stored flat, entry `4 * row + col` holding `state[row][col]`.
//! A 16-byte block is loaded column-major: input byte `i` lands in row
//! `i % 4`, column `i / 4`, which is a transposition of the flat order; the
//! same transposition stores the state back to bytes.

use vstd::prelude::*;
use crate::gf::{
    inv_mix0, inv_mix1, inv_mix2, inv_mix3, lemma_inv_mix_of_mix, lemma_xor_cancel, mix0, mix1,
    mix2, mix3, mul11, mul13, mul14, mul2, mul3, mul9,
};
use crate::sbox::{inv_sbox_byte, inv_sbox_spec, lemma_inv_sbox_of_sbox_byte, sbox_byte, sbox_spec};
use crate::words::{unword, word_byte};

verus! {

/// The transposition between the linear 16-byte block order and the flat
/// row-major grid: entry `i` is taken from entry `4 * (i % 4) + i / 4`.
/// Applying it twice gives the sequence back.
pub open spec fn transpose_spec(s: Seq<u8>) -> Seq<u8> {
    Seq::new(16, |i: int| s[4 * (i % 4) + i / 4])
}

/// SubBytes: the S-box applied to every byte of the state.
pub open spec fn sub_bytes_spec(s: Seq<u8>) -> Seq<u8> {
    Seq::new(16, |i: int| sbox_spec(s[i]))
}

/// InvSubBytes: the inverse S-box applied to every byte of the state.
pub open spec fn inv_sub_bytes_spec(s: Seq<u8>) -> Seq<u8> {
    Seq::new(16, |i: int| inv_sbox_spec(s[i]))
}

/// ShiftRows: row `r` rotated left by `r` positions, so entry `(r, c)` is
/// taken from column `(c + r) % 4` of the same row.
pub open spec fn shift_rows_spec(s: Seq<u8>) -> Seq<u8> {
    Seq::new(16, |i: int| s[4 * (i / 4) + (i % 4 + i / 4) % 4])
}

/// InvShiftRows: row `r` rotated right by `r` positions, so entry `(r, c)`
/// is taken from column `(c + 4 - r) % 4` of the same row.
pub open spec fn inv_shift_rows_spec(s: Seq<u8>) -> Seq<u8> {
    Seq::new(16, |i: int| s[4 * (i / 4) + (i % 4 + 4 - i / 4) % 4])
}

/// One entry of MixColumns: row `i / 4` of the MDS matrix applied to column
/// `i % 4` of the state.
pub open spec fn mix_entry(s: Seq<u8>, i: int) -> u8 {
    let c = i % 4;
    if i / 4 == 0 {
        mix0(s[c], s[4 + c], s[8 + c], s[12 + c])
    } else if i / 4 == 1 {
        mix1(s[c], s[4 + c], s[8 + c], s[12 + c])
    } else if i / 4 == 2 {
        mix2(s[c], s[4 + c], s[8 + c], s[12 + c])
    } else {
        mix3(s[c], s[4 + c], s[8 + c], s[12 + c])
    }
}

/// MixColumns: every column replaced by its product with the MDS matrix.
pub open spec fn mix_columns_spec(s: Seq<u8>) -> Seq<u8> {
    Seq::new(16, |i: int| mix_entry(s, i))
}

/// One entry of InvMixColumns: row `i / 4` of the inverse matrix applied to
/// column `i % 4` of the state.
pub open spec fn inv_mix_entry(s: Seq<u8>, i: int) -> u8 {
    let c = i % 4;
    if i / 4 == 0 {
        inv_mix0(s[c], s[4 + c], s[8 + c], s[12 + c])
    } else if i / 4 == 1 {
        inv_mix1(s[c], s[4 + c], s[8 + c], s[12 + c])
    } else if i / 4 == 2 {
        inv_mix2(s[c], s[4 + c], s[8 + c], s[12 + c])
    } else {
        inv_mix3(s[c], s[4 + c], s[8 + c], s[12 + c])
    }
}

/// InvMixColumns: every column replaced by its product with the inverse
/// MDS matrix.
pub open spec fn inv_mix_columns_spec(s: Seq<u8>) -> Seq<u8> {
    Seq::new(16, |i: int| inv_mix_entry(s, i))
}

/// AddRoundKey: the state XORed with one 128-bit round key given as four
/// words, word `c` supplying (big-endian) the four bytes of column `c`.
pub open spec fn add_round_key_spec(s: Seq<u8>, k: Seq<u32>) -> Seq<u8> {
    Seq::new(16, |i: int| s[i] ^ word_byte(k[i % 4], i / 4))
}

/// The transposition is an involution.
pub proof fn lemma_transpose_involution(s: Seq<u8>)
    requires
        s.len() == 16,
    ensures
        transpose_spec(transpose_spec(s)) == s,
{
    let t = transpose_spec(transpose_spec(s));
    assert forall|i: int| 0 <= i < 16 implies t[i] == s[i] by {
        let j = 4 * (i % 4) + i / 4;
        assert(j % 4 == i / 4 && j / 4 == i % 4);
    }
    assert(t =~= s);
}

/// InvShiftRows undoes ShiftRows.
pub proof fn lemma_inv_shift_rows_of_shift_rows(s: Seq<u8>)
    requires
        s.len() == 16,
    ensures
        inv_shift_rows_spec(shift_rows_spec(s)) == s,
{
    let t = inv_shift_rows_spec(shift_rows_spec(s));
    assert forall|i: int| 0 <= i < 16 implies t[i] == s[i] by {
        let j = 4 * (i / 4) + (i % 4 + 4 - i / 4) % 4;
        assert(j / 4 == i / 4 && j % 4 == (i % 4 + 4 - i / 4) % 4);
        assert((j % 4 + j / 4) % 4 == i % 4);
    }
    assert(t =~= s);
}

/// InvSubBytes undoes SubBytes.
pub proof fn lemma_inv_sub_bytes_of_sub_bytes(s: Seq<u8>)
    requires
        s.len() == 16,
    ensures
        inv_sub_bytes_spec(sub_bytes_spec(s)) == s,
{
    let t = inv_sub_bytes_spec(sub_bytes_spec(s));
    assert forall|i: int| 0 <= i < 16 implies t[i] == s[i] by {
        lemma_inv_sbox_of_sbox_byte(s[i]);
    }
    assert(t =~= s);
}

/// InvMixColumns undoes MixColumns.
pub proof fn lemma_inv_mix_columns_of_mix_columns(s: Seq<u8>)
    requires
        s.len() == 16,
    ensures
        inv_mix_columns_spec(mix_columns_spec(s)) == s,
{
    let m = mix_columns_spec(s);
    let t = inv_mix_columns_spec(m);
    assert forall|i: int| 0 <= i < 16 implies t[i] == s[i] by {
        let c = i % 4;
        lemma_inv_mix_of_mix(s[c], s[4 + c], s[8 + c], s[12 + c]);
        assert(m[c] == mix0(s[c], s[4 + c], s[8 + c], s[12 + c]));
        assert(m[4 + c] == mix1(s[c], s[4 + c], s[8 + c], s[12 + c]));
        assert(m[8 + c] == mix2(s[c], s[4 + c], s[8 + c], s[12 + c]));
        assert(m[12 + c] == mix3(s[c], s[4 + c], s[8 + c], s[12 + c]));
    }
    assert(t =~= s);
}

/// Adding the same round key twice gives the state back.
pub proof fn lemma_add_round_key_cancel(s: Seq<u8>, k: Seq<u32>)
    requires
        s.len() == 16,
        k.len() == 4,
    ensures
        add_round_key_spec(add_round_key_spec(s, k), k) == s,
{
    let t = add_round_key_spec(add_round_key_spec(s, k), k);
    assert forall|i: int| 0 <= i < 16 implies t[i] == s[i] by {
        lemma_xor_cancel(s[i], word_byte(k[i % 4], i / 4));
    }
    assert(t =~= s);
}

/// One 128-bit block as a 4 x 4 byte grid, flat in row-major order.
pub struct AesState {
    pub state: [u8; 16],
}

impl View for AesState {
    type V = Seq<u8>;

    open spec fn view(&self) -> Seq<u8> {
        self.state@
    }
}

impl AesState {
    /// Load 16 block bytes into the grid, column-major.
    pub fn input(state: [u8; 16]) -> (r: AesState)
        ensures
            r@ == transpose_spec(state@),
    {
        AesState { state: Self::transpose_state(&state) }
    }

    /// Store the grid back to 16 block bytes, undoing the load order.
    pub fn output(&self) -> (r: [u8; 16])
        ensures
            r@ == transpose_spec(self@),
    {
        Self::transpose_state(&self.state)
    }

    /// Swap rows and columns of a flat 4 x 4 grid.
    pub fn transpose_state(s: &[u8; 16]) -> (r: [u8; 16])
        ensures
            r@ == transpose_spec(s@),
    {
        let r: [u8; 16] = [
            s[0], s[4], s[8], s[12],
            s[1], s[5], s[9], s[13],
            s[2], s[6], s[10], s[14],
            s[3], s[7], s[11], s[15],
        ];
        assert(r@ =~= transpose_spec(s@));
        r
    }

    /// Apply the S-box to every byte of the state.
    pub fn sub_bytes(&mut self)
        ensures
            final(self)@ == sub_bytes_spec(old(self)@),
    {
        let t: [u8; 16] = self.state;
        let mut i: usize = 0;
        while i < 16
            invariant
                0 <= i <= 16,
                t@ == old(self)@,
                forall|j: int| 0 <= j < i ==> self.state@[j] == sbox_spec(t@[j]),
                forall|j: int| i <= j < 16 ==> self.state@[j] == t@[j],
            decreases 16 - i,
        {
            self.state[i] = sbox_byte(t[i]);
            i = i + 1;
        }
        assert(self.state@ =~= sub_bytes_spec(old(self)@));
    }

    /// Apply the inverse S-box to every byte of the state.
    pub fn inv_sub_bytes(&mut self)
        ensures
            final(self)@ == inv_sub_bytes_spec(old(self)@),
    {
        let t: [u8; 16] = self.state;
        let mut i: usize = 0;
        while i < 16
            invariant
                0 <= i <= 16,
                t@ == old(self)@,
                forall|j: int| 0 <= j < i ==> self.state@[j] == inv_sbox_spec(t@[j]),
                forall|j: int| i <= j < 16 ==> self.state@[j] == t@[j],
            decreases 16 - i,
        {
            self.state[i] = inv_sbox_byte(t[i]);
            i = i + 1;
        }
        assert(self.state@ =~= inv_sub_bytes_spec(old(self)@));
    }

    /// Rotate row `r` left by `r` positions.
    pub fn shift_rows(&mut self)
        ensures
            final(self)@ == shift_rows_spec(old(self)@),
    {
        let t: [u8; 16] = self.state;
        self.state[4] = t[5];
        self.state[5] = t[6];
        self.state[6] = t[7];
        self.state[7] = t[4];
        self.state[8] = t[10];
        self.state[9] = t[11];
        self.state[10] = t[8];
        self.state[11] = t[9];
        self.state[12] = t[15];
        self.state[13] = t[12];
        self.state[14] = t[13];
        self.state[15] = t[14];
        assert(self.state@ =~= shift_rows_spec(old(self)@));
    }

    /// Rotate row `r` right by `r` positions.
    pub fn inv_shift_rows(&mut self)
        ensures
            final(self)@ == inv_shift_rows_spec(old(self)@),
    {
        let t: [u8; 16] = self.state;
        self.state[4] = t[7];
        self.state[5] = t[4];
        self.state[6] = t[5];
        self.state[7] = t[6];
        self.state[8] = t[10];
        self.state[9] = t[11];
        self.state[10] = t[8];
        self.state[11] = t[9];
        self.state[12] = t[13];
        self.state[13] = t[14];
        self.state[14] = t[15];
        self.state[15] = t[12];
        assert(self.state@ =~= inv_shift_rows_spec(old(self)@));
    }

    /// Multiply every column by the MDS matrix.
    pub fn mix_columns(&mut self)
        ensures
            final(self)@ == mix_columns_spec(old(self)@),
    {
        let t: [u8; 16] = self.state;
        let mut j: usize = 0;
        while j < 4
            invariant
                0 <= j <= 4,
                t@ == old(self)@,
                forall|i: int| 0 <= i < 16 && i % 4 < j ==> self.state@[i] == mix_entry(t@, i),
                forall|i: int| 0 <= i < 16 && i % 4 >= j ==> self.state@[i] == t@[i],
            decreases 4 - j,
        {
            self.state[j] = mul2(t[j]) ^ mul3(t[4 + j]) ^ t[8 + j] ^ t[12 + j];
            self.state[4 + j] = t[j] ^ mul2(t[4 + j]) ^ mul3(t[8 + j]) ^ t[12 + j];
            self.state[8 + j] = t[j] ^ t[4 + j] ^ mul2(t[8 + j]) ^ mul3(t[12 + j]);
            self.state[12 + j] = mul3(t[j]) ^ t[4 + j] ^ t[8 + j] ^ mul2(t[12 + j]);
            j = j + 1;
        }
        assert(self.state@ =~= mix_columns_spec(old(self)@));
    }

    /// Multiply every column by the inverse MDS matrix.
    pub fn inv_mix_columns(&mut self)
        ensures
            final(self)@ == inv_mix_columns_spec(old(self)@),
    {
        let t: [u8; 16] = self.state;
        let mut j: usize = 0;
        while j < 4
            invariant
                0 <= j <= 4,
                t@ == old(self)@,
                forall|i: int| 0 <= i < 16 && i % 4 < j ==> self.state@[i] == inv_mix_entry(t@, i),
                forall|i: int| 0 <= i < 16 && i % 4 >= j ==> self.state@[i] == t@[i],
            decreases 4 - j,
        {
            self.state[j] = mul14(t[j]) ^ mul11(t[4 + j]) ^ mul13(t[8 + j]) ^ mul9(t[12 + j]);
            self.state[4 + j] = mul9(t[j]) ^ mul14(t[4 + j]) ^ mul11(t[8 + j]) ^ mul13(t[12 + j]);
            self.state[8 + j] = mul13(t[j]) ^ mul9(t[4 + j]) ^ mul14(t[8 + j]) ^ mul11(t[12 + j]);
            self.state[12 + j] = mul11(t[j]) ^ mul13(t[4 + j]) ^ mul9(t[8 + j]) ^ mul14(t[12 + j]);
            j = j + 1;
        }
        assert(self.state@ =~= inv_mix_columns_spec(old(self)@));
    }

    /// XOR the state with one round key of four words, word `c` filling
    /// column `c` big-endian.
    pub fn add_round_key(&mut self, k: &[u32; 4])
        ensures
            final(self)@ == add_round_key_spec(old(self)@, k@),
    {
        let mut j: usize = 0;
        while j < 4
            invariant
                0 <= j <= 4,
                forall|i: int|
                    0 <= i < 16 && i % 4 < j ==> self.state@[i] == old(self)@[i] ^ word_byte(
                        k@[i % 4],
                        i / 4,
                    ),
                forall|i: int| 0 <= i < 16 && i % 4 >= j ==> self.state@[i] == old(self)@[i],
            decreases 4 - j,
        {
            let kb: [u8; 4] = unword(k[j]);
            self.state[j] = self.state[j] ^ kb[0];
            self.state[4 + j] = self.state[4 + j] ^ kb[1];
            self.state[8 + j] = self.state[8 + j] ^ kb[2];
            self.state[12 + j] = self.state[12 + j] ^ kb[3];
            j = j + 1;
        }
        assert(self.state@ =~= add_round_key_spec(old(self)@, k@));
    }
}

} // verus!
