use aes::cipher::{AesError, AES};
use aes::gf::{mul11, mul13, mul14, mul2, mul3, mul9};
use aes::sbox::{inv_s_box, s_box};
use aes::state::AesState;
use aes::words::{unword, word};

#[test]
fn key_gen_128() {
    let key: [u8; 16] = [
        0x2b, 0x7e, 0x15, 0x16, 0x28, 0xae, 0xd2, 0xa6, 0xab, 0xf7, 0x15, 0x88, 0x09, 0xcf, 0x4f,
        0x3c,
    ];
    let a = AES::aes_128(key);
    let k = a.gen_round_keys();

    assert_eq!(k[0], 0x2b7e1516);
    assert_eq!(k[1], 0x28aed2a6);
    assert_eq!(k[2], 0xabf71588);
    assert_eq!(k[3], 0x09cf4f3c);
}

#[test]
fn encrypt_128() {
    let key: [u8; 16] = [
        0x00, 0x01, 0x02, 0x03, 0x04, 0x05, 0x06, 0x07, 0x08, 0x09, 0x0a, 0x0b, 0x0c, 0x0d, 0x0e,
        0x0f,
    ];
    let a = AES::aes_128(key);

    let m: [u8; 16] = [
        0x00, 0x11, 0x22, 0x33, 0x44, 0x55, 0x66, 0x77, 0x88, 0x99, 0xaa, 0xbb, 0xcc, 0xdd, 0xee,
        0xff,
    ];
    let expected_c = [
        0x69, 0xc4, 0xe0, 0xd8, 0x6a, 0x7b, 0x04, 0x30, 0xd8, 0xcd, 0xb7, 0x80, 0x70, 0xb4, 0xc5,
        0x5a,
    ];
    let c = a.encrypt(m);

    assert_eq!(c, expected_c);
}

#[test]
fn decrypt_128() {
    let key: [u8; 16] = [
        0x00, 0x01, 0x02, 0x03, 0x04, 0x05, 0x06, 0x07, 0x08, 0x09, 0x0a, 0x0b, 0x0c, 0x0d, 0x0e,
        0x0f,
    ];
    let a = AES::aes_128(key);

    let c = [
        0x69, 0xc4, 0xe0, 0xd8, 0x6a, 0x7b, 0x04, 0x30, 0xd8, 0xcd, 0xb7, 0x80, 0x70, 0xb4, 0xc5,
        0x5a,
    ];
    let expected_m: [u8; 16] = [
        0x00, 0x11, 0x22, 0x33, 0x44, 0x55, 0x66, 0x77, 0x88, 0x99, 0xaa, 0xbb, 0xcc, 0xdd, 0xee,
        0xff,
    ];
    let m = a.decrypt(c);

    assert_eq!(m, expected_m);
}

#[test]
fn key_gen_128_last_round_key() {
    // FIPS-197 appendix A.1: the final four schedule words for the same key.
    let key: [u8; 16] = [
        0x2b, 0x7e, 0x15, 0x16, 0x28, 0xae, 0xd2, 0xa6, 0xab, 0xf7, 0x15, 0x88, 0x09, 0xcf, 0x4f,
        0x3c,
    ];
    let a = AES::aes_128(key);
    let k = a.gen_round_keys();

    assert_eq!(k.len(), 44);
    assert_eq!(k[40], 0xd014f9a8);
    assert_eq!(k[41], 0xc9ee2589);
    assert_eq!(k[42], 0xe13f0cc8);
    assert_eq!(k[43], 0xb6630ca6);
}

#[test]
fn encrypt_192() {
    let mut key = [0u8; 24];
    for i in 0..24 {
        key[i] = i as u8;
    }
    let m: [u8; 16] = [
        0x00, 0x11, 0x22, 0x33, 0x44, 0x55, 0x66, 0x77, 0x88, 0x99, 0xaa, 0xbb, 0xcc, 0xdd, 0xee,
        0xff,
    ];
    let expected_c = [
        0xdd, 0xa9, 0x7c, 0xa4, 0x86, 0x4c, 0xdf, 0xe0, 0x6e, 0xaf, 0x70, 0xa0, 0xec, 0x0d, 0x71,
        0x91,
    ];
    let a = AES::aes_196(key);
    assert_eq!(a.encrypt(m), expected_c);
    assert_eq!(a.decrypt(expected_c), m);
}

#[test]
fn encrypt_256() {
    let mut key = [0u8; 32];
    for i in 0..32 {
        key[i] = i as u8;
    }
    let m: [u8; 16] = [
        0x00, 0x11, 0x22, 0x33, 0x44, 0x55, 0x66, 0x77, 0x88, 0x99, 0xaa, 0xbb, 0xcc, 0xdd, 0xee,
        0xff,
    ];
    let expected_c = [
        0x8e, 0xa2, 0xb7, 0xca, 0x51, 0x67, 0x45, 0xbf, 0xea, 0xfc, 0x49, 0x90, 0x4b, 0x49, 0x60,
        0x89,
    ];
    let a = AES::aes_256(key);
    assert_eq!(a.encrypt(m), expected_c);
    assert_eq!(a.decrypt(expected_c), m);
}

#[test]
fn round_trip_all_key_sizes() {
    let m: [u8; 16] = [
        0x9f, 0x00, 0x01, 0xfe, 0x42, 0x13, 0x37, 0x77, 0x81, 0x19, 0xaa, 0x0b, 0xc5, 0xd2, 0xe0,
        0xff,
    ];

    let a = AES::aes_128([0x5a; 16]);
    assert_eq!(a.decrypt(a.encrypt(m)), m);

    let b = AES::aes_196([0xa5; 24]);
    assert_eq!(b.decrypt(b.encrypt(m)), m);

    let c = AES::aes_256([0x3c; 32]);
    assert_eq!(c.decrypt(c.encrypt(m)), m);
}

#[test]
fn encrypt_is_deterministic() {
    let key: [u8; 16] = [0x42; 16];
    let m: [u8; 16] = [0x07; 16];
    let a1 = AES::aes_128(key);
    let a2 = AES::aes_128(key);
    let c1 = a1.encrypt(m);
    let c2 = a2.encrypt(m);
    let c3 = a1.encrypt(m);
    assert_eq!(c1, c2);
    assert_eq!(c1, c3);
    assert_eq!(a1.decrypt(c1), a2.decrypt(c2));
}

#[test]
fn avalanche_one_bit_flip() {
    // Qualitative check: one flipped plaintext bit should change roughly
    // half of the 128 output bits.
    let key: [u8; 16] = [
        0x00, 0x01, 0x02, 0x03, 0x04, 0x05, 0x06, 0x07, 0x08, 0x09, 0x0a, 0x0b, 0x0c, 0x0d, 0x0e,
        0x0f,
    ];
    let m1: [u8; 16] = [
        0x00, 0x11, 0x22, 0x33, 0x44, 0x55, 0x66, 0x77, 0x88, 0x99, 0xaa, 0xbb, 0xcc, 0xdd, 0xee,
        0xff,
    ];
    let mut m2 = m1;
    m2[0] ^= 0x01;

    let a = AES::aes_128(key);
    let c1 = a.encrypt(m1);
    let c2 = a.encrypt(m2);

    let mut diff: u32 = 0;
    for i in 0..16 {
        diff += (c1[i] ^ c2[i]).count_ones();
    }
    assert!(diff >= 30 && diff <= 98);
}

#[test]
fn sbox_inverse_every_byte() {
    for b in 0..=255u8 {
        let mut x = b;
        s_box(&mut x);
        inv_s_box(&mut x);
        assert_eq!(x, b);
    }
}

#[test]
fn sbox_known_values() {
    let mut x = 0x00u8;
    s_box(&mut x);
    assert_eq!(x, 0x63);
    let mut y = 0x53u8;
    s_box(&mut y);
    assert_eq!(y, 0xed);
    let mut z = 0xed_u8;
    inv_s_box(&mut z);
    assert_eq!(z, 0x53);
}

#[test]
fn multiply_known_values() {
    // FIPS-197 example products of 0x57, and the reduction case 2 * 0x80.
    assert_eq!(mul2(0x57), 0xae);
    assert_eq!(mul3(0x57), 0xf9);
    assert_eq!(mul9(0x57), 0xd9);
    assert_eq!(mul11(0x57), 0x77);
    assert_eq!(mul13(0x57), 0x9e);
    assert_eq!(mul14(0x57), 0x67);
    assert_eq!(mul2(0x80), 0x1b);
    assert_eq!(mul2(0x00), 0x00);
    assert_eq!(mul3(0x01), 0x03);
}

#[test]
fn mix_columns_then_inverse_recovers_state() {
    let s: [u8; 16] = [
        0xdb, 0x13, 0x53, 0x45, 0xf2, 0x0a, 0x22, 0x5c, 0x01, 0x01, 0x01, 0x01, 0xc6, 0xc6, 0xc6,
        0xc6,
    ];
    let mut st = AesState { state: s };
    st.mix_columns();
    st.inv_mix_columns();
    assert_eq!(st.state, s);
}

#[test]
fn shift_rows_then_inverse_recovers_state() {
    let s: [u8; 16] = [
        0x00, 0x01, 0x02, 0x03, 0x10, 0x11, 0x12, 0x13, 0x20, 0x21, 0x22, 0x23, 0x30, 0x31, 0x32,
        0x33,
    ];
    let mut st = AesState { state: s };
    st.shift_rows();
    assert_eq!(
        st.state,
        [
            0x00, 0x01, 0x02, 0x03, 0x11, 0x12, 0x13, 0x10, 0x22, 0x23, 0x20, 0x21, 0x33, 0x30,
            0x31, 0x32,
        ]
    );
    st.inv_shift_rows();
    assert_eq!(st.state, s);
}

#[test]
fn state_load_store_round_trip() {
    let block: [u8; 16] = [
        0, 1, 2, 3, 4, 5, 6, 7, 8, 9, 10, 11, 12, 13, 14, 15,
    ];
    let st = AesState::input(block);
    // Column-major load: input byte i sits at row i % 4, column i / 4.
    assert_eq!(st.state, [0, 4, 8, 12, 1, 5, 9, 13, 2, 6, 10, 14, 3, 7, 11, 15]);
    assert_eq!(st.output(), block);
}

#[test]
fn word_packing_round_trip() {
    assert_eq!(word([0x01, 0x02, 0x03, 0x04]), 0x01020304);
    assert_eq!(unword(0xdeadbeef), [0xde, 0xad, 0xbe, 0xef]);
    assert_eq!(unword(word([0xaa, 0xbb, 0xcc, 0xdd])), [0xaa, 0xbb, 0xcc, 0xdd]);
    assert_eq!(word(unword(0x01ff00a5)), 0x01ff00a5);
}

#[test]
fn key_schedule_helpers() {
    assert_eq!(AES::rcon(1), 0x01000000);
    assert_eq!(AES::rcon(4), 0x08000000);
    assert_eq!(AES::rcon(9), 0x1b000000);
    assert_eq!(AES::rcon(10), 0x36000000);
    assert_eq!(AES::rot_word(0x01020304), 0x02030401);
    assert_eq!(AES::sub_word(0x00000000), 0x63636363);
}

#[test]
fn block_length_is_checked() {
    let a = AES::aes_128([0u8; 16]);

    let short = [0u8; 15];
    assert_eq!(a.encrypt_block(&short), Err(AesError::InvalidInputLength));
    assert_eq!(a.decrypt_block(&short), Err(AesError::InvalidInputLength));

    let long = [0u8; 17];
    assert_eq!(a.encrypt_block(&long), Err(AesError::InvalidInputLength));
    assert_eq!(a.decrypt_block(&long), Err(AesError::InvalidInputLength));

    let exact: [u8; 16] = [
        0x00, 0x11, 0x22, 0x33, 0x44, 0x55, 0x66, 0x77, 0x88, 0x99, 0xaa, 0xbb, 0xcc, 0xdd, 0xee,
        0xff,
    ];
    let c = a.encrypt_block(&exact).unwrap();
    assert_eq!(c.as_slice(), a.encrypt(exact).as_slice());
    let p = a.decrypt_block(c.as_slice()).unwrap();
    assert_eq!(p.as_slice(), &exact);
}

#[test]
fn key_length_is_checked() {
    assert_eq!(
        AES::new(vec![0u8; 15]).map(|a| a.nk),
        Err(AesError::InvalidKeyLength)
    );
    assert_eq!(
        AES::new(vec![0u8; 17]).map(|a| a.nk),
        Err(AesError::InvalidKeyLength)
    );
    assert_eq!(
        AES::new(vec![0u8; 0]).map(|a| a.nk),
        Err(AesError::InvalidKeyLength)
    );
    assert_eq!(
        AES::new(vec![0u8; 33]).map(|a| a.nk),
        Err(AesError::InvalidKeyLength)
    );

    let a16 = AES::new(vec![0u8; 16]).unwrap();
    assert_eq!((a16.nk, a16.nr), (4, 10));
    let a24 = AES::new(vec![0u8; 24]).unwrap();
    assert_eq!((a24.nk, a24.nr), (6, 12));
    let a32 = AES::new(vec![0u8; 32]).unwrap();
    assert_eq!((a32.nk, a32.nr), (8, 14));

    // A checked instance encrypts exactly as the fixed-size constructor.
    let key: [u8; 16] = [0x2b; 16];
    let m: [u8; 16] = [0x01; 16];
    let checked = AES::new(key.to_vec()).unwrap();
    assert_eq!(checked.encrypt(m), AES::aes_128(key).encrypt(m));
}
