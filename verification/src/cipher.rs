//! The AES cipher: key expansion and the forward and inverse round
//! pipelines over one 128-bit block.
//!
//! A cipher instance fixes a key of `4 * nk` bytes together with the round
//! count `nr`, always paired as (4, 10), (6, 12) or (8, 14). The key schedule
//! expands the key into `4 * (nr + 1)` words, one group of four per round.
//! `lemma_decrypt_of_encrypt` proves that the decryption pipeline inverts the
//! encryption pipeline for every key schedule and every block.

use vstd::prelude::*;
use crate::gf::{xtime, xtime_spec};
use crate::sbox::{sbox_byte, sbox_spec};
use crate::state::{
    add_round_key_spec, inv_mix_columns_spec, inv_shift_rows_spec, inv_sub_bytes_spec,
    lemma_add_round_key_cancel, lemma_inv_mix_columns_of_mix_columns,
    lemma_inv_shift_rows_of_shift_rows, lemma_inv_sub_bytes_of_sub_bytes,
    lemma_transpose_involution, mix_columns_spec, shift_rows_spec, sub_bytes_spec, transpose_spec,
    AesState,
};
use crate::words::{byte0, byte1, byte2, byte3, unword, word, word_spec};

verus! {

/// Word `i` of the cipher key: four consecutive key bytes, big-endian.
pub open spec fn key_word(key: Seq<u8>, i: int) -> u32 {
    word_spec(key[4 * i], key[4 * i + 1], key[4 * i + 2], key[4 * i + 3])
}

/// The round-constant byte: 1 for the first round constant, doubling in
/// GF(2^8) for each one after it.
pub open spec fn rcon_byte(j: int) -> u8
    decreases j,
{
    if j <= 1 {
        1
    } else {
        xtime_spec(rcon_byte(j - 1))
    }
}

/// The key-schedule word rotation: bytes rotated left by one position.
pub open spec fn rot_word_spec(w: u32) -> u32 {
    word_spec(byte1(w), byte2(w), byte3(w), byte0(w))
}

/// The key-schedule word substitution: the S-box applied to every byte.
pub open spec fn sub_word_spec(w: u32) -> u32 {
    word_spec(sbox_spec(byte0(w)), sbox_spec(byte1(w)), sbox_spec(byte2(w)), sbox_spec(byte3(w)))
}

/// Word `i` of the expanded key schedule for a key of `nk` words. The first
/// `nk` words are the key itself; each later word XORs the word `nk` back
/// with the previous word, transformed at multiples of `nk` (rotation,
/// substitution and round constant) and, for `nk == 8` only, substituted at
/// offset 4 within each group.
pub open spec fn key_schedule_word(key: Seq<u8>, nk: int, i: int) -> u32
    decreases i,
{
    if nk <= 0 || i < nk {
        key_word(key, i)
    } else {
        let prev = key_schedule_word(key, nk, i - 1);
        let temp = if i % nk == 0 {
            sub_word_spec(rot_word_spec(prev)) ^ word_spec(rcon_byte(i / nk), 0, 0, 0)
        } else if nk == 8 && i % nk == 4 {
            sub_word_spec(prev)
        } else {
            prev
        };
        key_schedule_word(key, nk, i - nk) ^ temp
    }
}

/// The full key schedule: `4 * (nr + 1)` words.
pub open spec fn round_keys_spec(key: Seq<u8>, nk: int, nr: int) -> Seq<u32> {
    Seq::new((4 * (nr + 1)) as nat, |i: int| key_schedule_word(key, nk, i))
}

/// Round key `r`: words `4r .. 4r + 3` of the schedule.
pub open spec fn round_key(w: Seq<u32>, r: int) -> Seq<u32> {
    seq![w[4 * r], w[4 * r + 1], w[4 * r + 2], w[4 * r + 3]]
}

/// The state after the middle encryption rounds 1 through `r`: each round
/// is SubBytes, ShiftRows, MixColumns, AddRoundKey.
pub open spec fn enc_rounds(s0: Seq<u8>, w: Seq<u32>, r: int) -> Seq<u8>
    decreases r,
{
    if r <= 0 {
        s0
    } else {
        add_round_key_spec(
            mix_columns_spec(shift_rows_spec(sub_bytes_spec(enc_rounds(s0, w, r - 1)))),
            round_key(w, r),
        )
    }
}

/// The state after the middle decryption rounds `r` down through 1: each
/// round is InvShiftRows, InvSubBytes, AddRoundKey, InvMixColumns.
pub open spec fn dec_rounds(t: Seq<u8>, w: Seq<u32>, r: int) -> Seq<u8>
    decreases r,
{
    if r <= 0 {
        t
    } else {
        dec_rounds(
            inv_mix_columns_spec(
                add_round_key_spec(inv_sub_bytes_spec(inv_shift_rows_spec(t)), round_key(w, r)),
            ),
            w,
            r - 1,
        )
    }
}

/// Encryption of one block: load column-major, whiten with round key 0, run
/// the middle rounds, run the final round without MixColumns, store.
pub open spec fn encrypt_spec(key: Seq<u8>, nk: int, nr: int, p: Seq<u8>) -> Seq<u8> {
    let w = round_keys_spec(key, nk, nr);
    let s0 = add_round_key_spec(transpose_spec(p), round_key(w, 0));
    transpose_spec(
        add_round_key_spec(
            shift_rows_spec(sub_bytes_spec(enc_rounds(s0, w, nr - 1))),
            round_key(w, nr),
        ),
    )
}

/// Decryption of one block: the exact algebraic inverse of `encrypt_spec`,
/// applied in reverse round order.
pub open spec fn decrypt_spec(key: Seq<u8>, nk: int, nr: int, c: Seq<u8>) -> Seq<u8> {
    let w = round_keys_spec(key, nk, nr);
    let t0 = add_round_key_spec(transpose_spec(c), round_key(w, nr));
    transpose_spec(
        add_round_key_spec(
            inv_sub_bytes_spec(inv_shift_rows_spec(dec_rounds(t0, w, nr - 1))),
            round_key(w, 0),
        ),
    )
}

/// The middle decryption rounds unwind the middle encryption rounds: fed
/// the final-round input SubBytes/ShiftRows image of the state after `r`
/// encryption rounds, they return the image of the initial state.
proof fn lemma_dec_rounds_unwind(s0: Seq<u8>, w: Seq<u32>, r: int)
    requires
        s0.len() == 16,
    ensures
        dec_rounds(shift_rows_spec(sub_bytes_spec(enc_rounds(s0, w, r))), w, r)
            == shift_rows_spec(sub_bytes_spec(s0)),
    decreases r,
{
    if r > 0 {
        let e_prev = enc_rounds(s0, w, r - 1);
        let m = mix_columns_spec(shift_rows_spec(sub_bytes_spec(e_prev)));
        let e = enc_rounds(s0, w, r);
        lemma_inv_shift_rows_of_shift_rows(sub_bytes_spec(e));
        lemma_inv_sub_bytes_of_sub_bytes(e);
        lemma_add_round_key_cancel(m, round_key(w, r));
        lemma_inv_mix_columns_of_mix_columns(shift_rows_spec(sub_bytes_spec(e_prev)));
        lemma_dec_rounds_unwind(s0, w, r - 1);
    }
}

/// Round trip: decrypting an encrypted block under the same key schedule
/// gives the block back, for every key, every block and every round count.
pub proof fn lemma_decrypt_of_encrypt(key: Seq<u8>, nk: int, nr: int, p: Seq<u8>)
    requires
        p.len() == 16,
        nr >= 1,
    ensures
        decrypt_spec(key, nk, nr, encrypt_spec(key, nk, nr, p)) == p,
{
    let w = round_keys_spec(key, nk, nr);
    let s0 = add_round_key_spec(transpose_spec(p), round_key(w, 0));
    let e = enc_rounds(s0, w, nr - 1);
    let c_pre = add_round_key_spec(shift_rows_spec(sub_bytes_spec(e)), round_key(w, nr));
    lemma_transpose_involution(c_pre);
    lemma_add_round_key_cancel(shift_rows_spec(sub_bytes_spec(e)), round_key(w, nr));
    lemma_dec_rounds_unwind(s0, w, nr - 1);
    lemma_inv_shift_rows_of_shift_rows(sub_bytes_spec(s0));
    lemma_inv_sub_bytes_of_sub_bytes(s0);
    lemma_add_round_key_cancel(transpose_spec(p), round_key(w, 0));
    lemma_transpose_involution(p);
}

/// Determinism: what a block encrypts or decrypts to is a function of the
/// key material and the block alone. Two cipher instances that agree on
/// key, `nk` and `nr` transform every block identically; no other state
/// enters the result.
pub proof fn lemma_cipher_deterministic(a1: AES, a2: AES, b: Seq<u8>)
    requires
        a1.key@ == a2.key@,
        a1.nk == a2.nk,
        a1.nr == a2.nr,
    ensures
        encrypt_spec(a1.key@, a1.nk as int, a1.nr as int, b) == encrypt_spec(
            a2.key@,
            a2.nk as int,
            a2.nr as int,
            b,
        ),
        decrypt_spec(a1.key@, a1.nk as int, a1.nr as int, b) == decrypt_spec(
            a2.key@,
            a2.nk as int,
            a2.nr as int,
            b,
        ),
{
}

/// The error a caller gets for a malformed key or block length.
#[derive(Clone, Copy, Debug, PartialEq, Eq, Structural)]
pub enum AesError {
    /// The key is not 16, 24 or 32 bytes long.
    InvalidKeyLength,
    /// The block is not exactly 16 bytes long.
    InvalidInputLength,
}

/// An AES cipher instance: the key together with its consistent
/// `(nk, nr)` pair.
pub struct AES {
    pub key: Vec<u8>,
    pub nk: usize,
    pub nr: usize,
}

impl AES {
    /// The configuration invariant: the key holds `4 * nk` bytes and
    /// `(nk, nr)` is one of the three pairs the standard fixes.
    pub open spec fn wf(&self) -> bool {
        self.key@.len() == 4 * self.nk && ((self.nk == 4 && self.nr == 10) || (self.nk == 6
            && self.nr == 12) || (self.nk == 8 && self.nr == 14))
    }

    /// AES-128: a 16-byte key, 10 rounds.
    pub fn aes_128(key: [u8; 16]) -> (r: AES)
        ensures
            r.wf(),
            r.key@ == key@,
            r.nk == 4,
            r.nr == 10,
    {
        AES { key: vstd::slice::slice_to_vec(key.as_slice()), nk: 4, nr: 10 }
    }

    /// AES-192: a 24-byte key, 12 rounds.
    pub fn aes_196(key: [u8; 24]) -> (r: AES)
        ensures
            r.wf(),
            r.key@ == key@,
            r.nk == 6,
            r.nr == 12,
    {
        AES { key: vstd::slice::slice_to_vec(key.as_slice()), nk: 6, nr: 12 }
    }

    /// AES-256: a 32-byte key, 14 rounds.
    pub fn aes_256(key: [u8; 32]) -> (r: AES)
        ensures
            r.wf(),
            r.key@ == key@,
            r.nk == 8,
            r.nr == 14,
    {
        AES { key: vstd::slice::slice_to_vec(key.as_slice()), nk: 8, nr: 14 }
    }

    /// Construct the cipher for a key of any supported length, selecting
    /// `(nk, nr)` from the length, and reject every other length.
    pub fn new(key: Vec<u8>) -> (r: Result<AES, AesError>)
        ensures
            (key@.len() == 16 || key@.len() == 24 || key@.len() == 32) <==> r is Ok,
            r is Ok ==> r->Ok_0.wf() && r->Ok_0.key@ == key@ && 4 * r->Ok_0.nk == key@.len(),
            r is Err ==> r->Err_0 == AesError::InvalidKeyLength,
    {
        let n = key.len();
        if n == 16 {
            Ok(AES { key, nk: 4, nr: 10 })
        } else if n == 24 {
            Ok(AES { key, nk: 6, nr: 12 })
        } else if n == 32 {
            Ok(AES { key, nk: 8, nr: 14 })
        } else {
            Err(AesError::InvalidKeyLength)
        }
    }

    /// The round constant for group `j` of the key schedule, as a word with
    /// the constant in its high byte.
    pub fn rcon(j: usize) -> (r: u32)
        requires
            j >= 1,
        ensures
            r == word_spec(rcon_byte(j as int), 0, 0, 0),
    {
        let mut b: u8 = 1;
        let mut t: usize = 1;
        while t < j
            invariant
                1 <= t <= j,
                b == rcon_byte(t as int),
            decreases j - t,
        {
            b = xtime(b);
            t = t + 1;
        }
        word([b, 0, 0, 0])
    }

    /// Rotate the bytes of a word left by one position.
    pub fn rot_word(w: u32) -> (r: u32)
        ensures
            r == rot_word_spec(w),
    {
        let bs: [u8; 4] = unword(w);
        word([bs[1], bs[2], bs[3], bs[0]])
    }

    /// Substitute every byte of a word through the S-box.
    pub fn sub_word(w: u32) -> (r: u32)
        ensures
            r == sub_word_spec(w),
    {
        let bs: [u8; 4] = unword(w);
        word([sbox_byte(bs[0]), sbox_byte(bs[1]), sbox_byte(bs[2]), sbox_byte(bs[3])])
    }

    /// Expand the cipher key into the `4 * (nr + 1)` round-key words.
    pub fn gen_round_keys(&self) -> (w: Vec<u32>)
        requires
            self.wf(),
        ensures
            w@ == round_keys_spec(self.key@, self.nk as int, self.nr as int),
            w@.len() == 4 * (self.nr + 1),
    {
        let nk = self.nk;
        let total: usize = 4 * (self.nr + 1);
        let mut w: Vec<u32> = Vec::new();
        let mut i: usize = 0;
        while i < nk
            invariant
                self.wf(),
                nk == self.nk,
                0 <= i <= nk,
                w@.len() == i,
                forall|j: int|
                    0 <= j < i ==> w@[j] == key_schedule_word(self.key@, nk as int, j),
            decreases nk - i,
        {
            w.push(word([self.key[4 * i], self.key[4 * i + 1], self.key[4 * i + 2], self.key[4 * i
                + 3]]));
            i = i + 1;
        }
        while i < total
            invariant
                self.wf(),
                nk == self.nk,
                total == 4 * (self.nr + 1),
                nk <= i <= total,
                w@.len() == i,
                forall|j: int|
                    0 <= j < i ==> w@[j] == key_schedule_word(self.key@, nk as int, j),
            decreases total - i,
        {
            let mut temp: u32 = w[i - 1];
            if i % nk == 0 {
                assert(i / nk >= 1) by (nonlinear_arith)
                    requires
                        i >= nk,
                        nk >= 4,
                ;
                temp = Self::sub_word(Self::rot_word(temp)) ^ Self::rcon(i / nk);
            } else if nk == 8 && i % nk == 4 {
                temp = Self::sub_word(temp);
            }
            let wi = w[i - nk] ^ temp;
            w.push(wi);
            i = i + 1;
        }
        assert(w@ =~= round_keys_spec(self.key@, self.nk as int, self.nr as int));
        w
    }

    /// Encrypt one 16-byte block under this cipher's key.
    pub fn encrypt(&self, input: [u8; 16]) -> (out: [u8; 16])
        requires
            self.wf(),
        ensures
            out@ == encrypt_spec(self.key@, self.nk as int, self.nr as int, input@),
    {
        let nr = self.nr;
        let w = self.gen_round_keys();
        let mut state = AesState::input(input);

        let k0: [u32; 4] = [w[0], w[1], w[2], w[3]];
        assert(k0@ =~= round_key(w@, 0));
        state.add_round_key(&k0);

        let ghost s0 = state@;
        let mut r: usize = 1;
        while r < nr
            invariant
                self.wf(),
                nr == self.nr,
                w@ == round_keys_spec(self.key@, self.nk as int, self.nr as int),
                w@.len() == 4 * (nr + 1),
                1 <= r <= nr,
                state@ == enc_rounds(s0, w@, r - 1),
            decreases nr - r,
        {
            let k: [u32; 4] = [w[4 * r], w[4 * r + 1], w[4 * r + 2], w[4 * r + 3]];
            assert(k@ =~= round_key(w@, r as int));
            state.sub_bytes();
            state.shift_rows();
            state.mix_columns();
            state.add_round_key(&k);
            r = r + 1;
        }

        state.sub_bytes();
        state.shift_rows();
        let kn: [u32; 4] = [w[4 * nr], w[4 * nr + 1], w[4 * nr + 2], w[4 * nr + 3]];
        assert(kn@ =~= round_key(w@, nr as int));
        state.add_round_key(&kn);

        state.output()
    }

    /// Decrypt one 16-byte block under this cipher's key.
    pub fn decrypt(&self, input: [u8; 16]) -> (out: [u8; 16])
        requires
            self.wf(),
        ensures
            out@ == decrypt_spec(self.key@, self.nk as int, self.nr as int, input@),
    {
        let nr = self.nr;
        let w = self.gen_round_keys();
        let mut state = AesState::input(input);

        let kn: [u32; 4] = [w[4 * nr], w[4 * nr + 1], w[4 * nr + 2], w[4 * nr + 3]];
        assert(kn@ =~= round_key(w@, nr as int));
        state.add_round_key(&kn);

        let ghost t0 = state@;
        let mut r: usize = nr - 1;
        while r >= 1
            invariant
                self.wf(),
                nr == self.nr,
                w@ == round_keys_spec(self.key@, self.nk as int, self.nr as int),
                w@.len() == 4 * (nr + 1),
                0 <= r <= nr - 1,
                dec_rounds(state@, w@, r as int) == dec_rounds(t0, w@, nr - 1),
            decreases r,
        {
            let k: [u32; 4] = [w[4 * r], w[4 * r + 1], w[4 * r + 2], w[4 * r + 3]];
            assert(k@ =~= round_key(w@, r as int));
            state.inv_shift_rows();
            state.inv_sub_bytes();
            state.add_round_key(&k);
            state.inv_mix_columns();
            r = r - 1;
        }

        state.inv_shift_rows();
        state.inv_sub_bytes();
        let k0: [u32; 4] = [w[0], w[1], w[2], w[3]];
        assert(k0@ =~= round_key(w@, 0));
        state.add_round_key(&k0);

        state.output()
    }

    /// Encrypt a block given as a slice, rejecting every length other than
    /// exactly 16 bytes.
    pub fn encrypt_block(&self, block: &[u8]) -> (r: Result<Vec<u8>, AesError>)
        requires
            self.wf(),
        ensures
            block@.len() == 16 <==> r is Ok,
            r is Ok ==> r->Ok_0@ == encrypt_spec(self.key@, self.nk as int, self.nr as int, block@),
            r is Err ==> r->Err_0 == AesError::InvalidInputLength,
    {
        if block.len() != 16 {
            return Err(AesError::InvalidInputLength);
        }
        let a: [u8; 16] = [block[0], block[1], block[2], block[3], block[4], block[5], block[6],
            block[7], block[8], block[9], block[10], block[11], block[12], block[13], block[14],
            block[15]];
        assert(a@ =~= block@);
        let out = self.encrypt(a);
        Ok(vstd::slice::slice_to_vec(out.as_slice()))
    }

    /// Decrypt a block given as a slice, rejecting every length other than
    /// exactly 16 bytes.
    pub fn decrypt_block(&self, block: &[u8]) -> (r: Result<Vec<u8>, AesError>)
        requires
            self.wf(),
        ensures
            block@.len() == 16 <==> r is Ok,
            r is Ok ==> r->Ok_0@ == decrypt_spec(self.key@, self.nk as int, self.nr as int, block@),
            r is Err ==> r->Err_0 == AesError::InvalidInputLength,
    {
        if block.len() != 16 {
            return Err(AesError::InvalidInputLength);
        }
        let a: [u8; 16] = [block[0], block[1], block[2], block[3], block[4], block[5], block[6],
            block[7], block[8], block[9], block[10], block[11], block[12], block[13], block[14],
            block[15]];
        assert(a@ =~= block@);
        let out = self.decrypt(a);
        Ok(vstd::slice::slice_to_vec(out.as_slice()))
    }
}

} // verus!
